//! Requests and replies, the table of compiled functions, and the step that
//! turns a request into what the engine is to evaluate.

use serde_json::Value;
use vstd::hash_map::StringHashMap;
use vstd::prelude::*;
use vstd::string::*;
use crate::console::Console;
use crate::error::Error;
use crate::pages::{fallback_text, page_fallback};

verus! {

/// A JSON value: the arguments that a request hands to its script. They are
/// passed through to the engine and never looked into.
#[verifier::external_type_specification]
#[verifier::external_body]
pub struct ExValue(Value);

/// A request.
#[derive(Debug)]
pub enum Script {
    /// Evaluate the text `code`.
    Function { args: Option<Value>, code: String },
    /// Render the page registered as `name`.
    RenderPage { args: Option<Value>, name: String },
    /// Evaluate the function that was compiled under `name`.
    CompiledFunction { args: Option<Value>, name: String },
}

/// What the engine is to evaluate: source text, or a compiled function of
/// the engine, which `H` stands for.
#[derive(Debug)]
pub enum Function<H> {
    Code(String),
    Compiled(H),
}

impl<H> Function<H> {
    /// The source text `value`, to be evaluated as it is.
    pub fn code(value: &str) -> (function: Self)
        ensures
            function matches Function::Code(text) && text@ == value@,
    {
        Function::Code(String::from_str(value))
    }
}

/// The reply to a request that was evaluated.
#[derive(Debug, PartialEq, Eq)]
pub struct ScriptOutput {
    /// The value of the script's last expression, as text.
    pub output: String,
    /// The lines that the script wrote to the console, in call order.
    pub console_output: String,
}

/// The reply to a request, under the name that callers of `execute_script`
/// on a runtime without pages know it by.
pub type ScriptResult = ScriptOutput;

/// The compiled functions of one worker by the names they were compiled
/// under. The table is filled while the worker starts and only read after.
#[verifier::reject_recursive_types(H)]
pub struct FunctionTable<H> {
    functions: StringHashMap<H>,
}

impl<H> View for FunctionTable<H> {
    type V = Map<Seq<char>, H>;

    closed spec fn view(&self) -> Map<Seq<char>, H> {
        self.functions@
    }
}

impl<H> FunctionTable<H> {
    /// A table without functions.
    pub fn new() -> (table: Self)
        ensures
            table@ == Map::<Seq<char>, H>::empty(),
    {
        FunctionTable { functions: StringHashMap::new() }
    }

    /// Puts `function` under `name`, in place of what stood there.
    pub fn insert(&mut self, name: String, function: H)
        ensures
            final(self)@ == old(self)@.insert(name@, function),
    {
        self.functions.insert(name, function);
    }

    /// The function under `name`, if there is one.
    pub fn get<'a>(&'a self, name: &str) -> (function: Option<&'a H>)
        ensures
            match function {
                Some(f) => self@.contains_key(name@) && *f == self@[name@],
                None => !self@.contains_key(name@),
            },
    {
        self.functions.get(name)
    }

    /// Whether a function stands under `name`.
    pub fn contains(&self, name: &str) -> (found: bool)
        ensures
            found == self@.contains_key(name@),
    {
        self.functions.contains_key(name)
    }

    /// How many functions the table holds.
    pub fn len(&self) -> (n: usize)
        ensures
            n == self@.len(),
    {
        self.functions.len()
    }

    /// Takes over every function of `other`; where both tables hold a name,
    /// the function of `other` stays.
    pub fn extend(&mut self, other: Self)
        ensures
            final(self)@ == old(self)@.union_prefer_right(other@),
    {
        self.functions.union_prefer_right(other.functions);
    }
}

/// What a request asks the engine to evaluate, given the names under which
/// functions were compiled.
pub enum Task {
    /// The text is evaluated.
    Code(Seq<char>),
    /// The function compiled under the name is evaluated.
    Compiled(Seq<char>),
    /// Nothing is evaluated: no function is compiled under the name.
    Missing(Seq<char>),
}

/// What is done for `script` where functions are compiled under `names`.
///
/// Text is evaluated as it is. A named function must have been compiled. A
/// page is rendered by its compiled invoker; without one, the fallback
/// script is evaluated as text in its place.
pub open spec fn task_of(script: Script, names: Set<Seq<char>>) -> Task {
    match script {
        Script::Function { args, code } => Task::Code(code@),
        Script::CompiledFunction { args, name } => if names.contains(name@) {
            Task::Compiled(name@)
        } else {
            Task::Missing(name@)
        },
        Script::RenderPage { args, name } => if names.contains(name@) {
            Task::Compiled(name@)
        } else {
            Task::Code(fallback_text(name@))
        },
    }
}

impl Script {
    /// The arguments of the request.
    pub open spec fn arguments(self) -> Option<Value> {
        match self {
            Script::Function { args, code } => args,
            Script::RenderPage { args, name } => args,
            Script::CompiledFunction { args, name } => args,
        }
    }
}

/// Resolves a request into the arguments to bind and what to evaluate.
///
/// The arguments are those of the request, untouched. What is evaluated is
/// as `task_of` says; a compiled function is handed out as the table holds
/// it. The one failure is `FunctionNotFound`, for a named function that was
/// never compiled, and it carries the name.
pub fn prepare_script<'a, H>(script: Script, compiled_fns: &'a FunctionTable<H>) -> (r: Result<
    (Option<Value>, Function<&'a H>),
    Error,
>)
    ensures
        match task_of(script, compiled_fns@.dom()) {
            Task::Code(text) => r matches Ok((args, Function::Code(code))) && args
                == script.arguments() && code@ == text,
            Task::Compiled(name) => r matches Ok((args, Function::Compiled(function))) && args
                == script.arguments() && *function == compiled_fns@[name],
            Task::Missing(name) => r matches Err(Error::FunctionNotFound(missing)) && missing@
                == name,
        },
{
    match script {
        Script::Function { args, code } => Ok((args, Function::Code(code))),
        Script::CompiledFunction { args, name } => match compiled_fns.get(name.as_str()) {
            Some(function) => Ok((args, Function::Compiled(function))),
            None => Err(Error::FunctionNotFound(name)),
        },
        Script::RenderPage { args, name } => match compiled_fns.get(name.as_str()) {
            Some(function) => Ok((args, Function::Compiled(function))),
            None => Ok((args, Function::Code(page_fallback(name.as_str())))),
        },
    }
}

/// Packages the reply to a request that was evaluated: the text of the
/// result together with what the sink of that evaluation gathered, and
/// nothing of any other sink. A failed evaluation is passed on as it is.
pub fn finish(result: Result<String, Error>, console: Console) -> (reply: Result<
    ScriptOutput,
    Error,
>)
    ensures
        match result {
            Ok(output) => reply == Ok::<ScriptOutput, Error>(
                (ScriptOutput { output, console_output: console.output }),
            ),
            Err(error) => reply == Err::<ScriptOutput, Error>(error),
        },
{
    match result {
        Ok(output) => Ok(ScriptOutput { output, console_output: console.output }),
        Err(error) => Err(error),
    }
}

} // verus!
