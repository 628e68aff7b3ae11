//! The console sink: what a script writes with `console.log` and its
//! siblings during one evaluation, gathered as text.

use vstd::prelude::*;
use vstd::string::*;
use crate::text::{join_strings, joined, string_texts};

verus! {

/// The text `", "` that stands between the values of one console call.
pub open spec fn comma() -> Seq<char> {
    seq![',', ' ']
}

/// The line that one console call adds: its values, already turned into
/// text by the engine, with `", "` between them and a line break at the end.
pub open spec fn line(values: Seq<Seq<char>>) -> Seq<char> {
    joined(values, comma()).push('\n')
}

/// The sink of one evaluation. It starts empty and holds the lines of that
/// evaluation only: a new evaluation is given a new sink.
pub struct Console {
    pub output: String,
}

impl Console {
    /// A sink that holds nothing yet.
    pub fn new() -> (console: Self)
        ensures
            console.output@ == Seq::<char>::empty(),
    {
        Console { output: String::new() }
    }

    /// Takes one console call. The level at which the script logged plays no
    /// part in the text, so it is not asked for. What the sink held stays in
    /// front; the line of this call follows it.
    pub fn log(&mut self, values: &Vec<String>)
        ensures
            final(self).output@ == old(self).output@ + line(string_texts(values@)),
    {
        proof {
            reveal_strlit(", ");
            reveal_strlit("\n");
            assert(", "@ == comma());
            assert("\n"@ == seq!['\n']);
        }
        let text = join_strings(values, ", ");
        self.output.append(text.as_str());
        self.output.append("\n");
    }
}

} // verus!
