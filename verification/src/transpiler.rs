//! The transpiler: from TypeScript and JSX text to plain script text.
//!
//! The work itself is done by `deno_ast`. What this module decides is how it
//! is asked: as what kind of source a text is parsed, whether as a script or
//! as a module, and which transforms are switched on for it.

use deno_ast::{
    DecoratorsTranspileOption, EmitOptions, JsxAutomaticOptions, JsxRuntime, MediaType,
    ModuleSpecifier, ParseParams, ParsedSource, SourceMapOption, TranspileOptions,
};
use vstd::prelude::*;
use vstd::string::*;
use crate::error::Error;
use crate::text::{chars_of, text_of};

verus! {

/// What kind of source a text is.
#[derive(Clone, Copy, Debug, PartialEq, Eq, Structural)]
pub enum MediaKind {
    TypeScript,
    Jsx,
    Tsx,
}

/// How a text is parsed.
#[derive(Clone, Copy, Debug, PartialEq, Eq, Structural)]
pub enum ParseMode {
    /// As a program: a script, which is evaluated for the value of its last
    /// expression, unless the text itself imports or exports.
    Program,
    /// As a module, whatever the text holds.
    Module,
}

/// Where the source map of the emitted text goes.
#[derive(Clone, Copy, Debug, PartialEq, Eq, Structural)]
pub enum SourceMaps {
    /// Into the emitted text, as a comment at its end.
    Inline,
    /// Beside the emitted text, which is left without it.
    Separate,
    /// Nowhere: none is made.
    Omitted,
}

/// Everything that is settled before a text is handed to `deno_ast`.
pub struct TranspilePlan {
    /// The name under which the text is parsed; it shows in diagnostics.
    pub specifier: String,
    pub media: MediaKind,
    pub mode: ParseMode,
    /// Whether decorators are rewritten as the ECMAScript proposal has them.
    pub decorators: bool,
    /// Whether JSX is rewritten to calls of the factory `jsx` that is
    /// imported from `<source>/jsx-runtime`, and from which `<source>`.
    pub jsx_import_source: Option<String>,
    pub source_maps: SourceMaps,
    /// Whether a source map holds the text it maps.
    pub inline_sources: bool,
}

/// The mark that some editors put in front of a text.
pub open spec fn byte_order_mark() -> char {
    '\u{feff}'
}

/// Whether `text` begins with a byte order mark.
pub open spec fn has_mark(text: Seq<char>) -> bool {
    text.len() > 0 && text[0] == byte_order_mark()
}

/// `text` without the byte order marks in front of it.
pub open spec fn without_mark(text: Seq<char>) -> Seq<char>
    decreases text.len(),
{
    if has_mark(text) {
        without_mark(text.skip(1))
    } else {
        text
    }
}

/// The import source of the settings in a contract.
pub open spec fn source_view(source: Option<String>) -> Option<Seq<char>> {
    match source {
        Some(s) => Some(s@),
        None => None,
    }
}

/// A plan as a contract speaks of it.
pub struct Plan {
    pub specifier: Seq<char>,
    pub media: MediaKind,
    pub mode: ParseMode,
    pub decorators: bool,
    pub jsx_import_source: Option<Seq<char>>,
    pub source_maps: SourceMaps,
    pub inline_sources: bool,
}

impl View for TranspilePlan {
    type V = Plan;

    open spec fn view(&self) -> Plan {
        Plan {
            specifier: self.specifier@,
            media: self.media,
            mode: self.mode,
            decorators: self.decorators,
            jsx_import_source: source_view(self.jsx_import_source),
            source_maps: self.source_maps,
            inline_sources: self.inline_sources,
        }
    }
}

/// The plan for a text of kind `media` that is parsed in `mode`.
///
/// TypeScript has its types taken out and its decorators rewritten. JSX is
/// rewritten to calls of `jsx` from the module `/jsx-runtime`: the import
/// source is empty. TSX gets both. The source map is kept apart from the
/// emitted text.
pub open spec fn plan_for(media: MediaKind, mode: ParseMode) -> Plan {
    Plan {
        specifier: "test://script.ts"@,
        media,
        mode,
        decorators: media != MediaKind::Jsx,
        jsx_import_source: if media == MediaKind::TypeScript {
            None
        } else {
            Some(Seq::<char>::empty())
        },
        source_maps: SourceMaps::Separate,
        inline_sources: true,
    }
}

impl TranspilePlan {
    /// The plan for a text of kind `media` that is parsed in `mode`.
    pub fn new(media: MediaKind, mode: ParseMode) -> (plan: Self)
        ensures
            plan@ == plan_for(media, mode),
    {
        let jsx_import_source = match media {
            MediaKind::TypeScript => None,
            MediaKind::Jsx => Some(String::new()),
            MediaKind::Tsx => Some(String::new()),
        };
        let decorators = match media {
            MediaKind::TypeScript => true,
            MediaKind::Jsx => false,
            MediaKind::Tsx => true,
        };
        TranspilePlan {
            specifier: String::from_str("test://script.ts"),
            media,
            mode,
            decorators,
            jsx_import_source,
            source_maps: SourceMaps::Separate,
            inline_sources: true,
        }
    }
}

/// A source that `deno_ast` has parsed. Nothing is known of what is in it.
#[verifier::external_type_specification]
#[verifier::external_body]
pub struct ExParsedSource(ParsedSource);

/// What `deno_ast::parse_module` returns for a text: the parsed source, or
/// the text of the diagnostic with which it refuses the text.
pub uninterp spec fn parsed_module(specifier: Seq<char>, text: Seq<char>, media: MediaKind) -> Result<ParsedSource, Seq<char>>;

/// What `deno_ast::parse_program` returns for a text: the parsed source, or
/// the text of the diagnostic with which it refuses the text.
pub uninterp spec fn parsed_program(specifier: Seq<char>, text: Seq<char>, media: MediaKind) -> Result<ParsedSource, Seq<char>>;

/// What `ParsedSource::transpile` returns for a parsed source: the
/// emitted text, or the text of the error with which it gives up.
pub uninterp spec fn emitted(
    parsed: ParsedSource,
    decorators: bool,
    jsx_import_source: Option<Seq<char>>,
    source_maps: SourceMaps,
    inline_sources: bool,
) -> Result<Seq<char>, Seq<char>>;

/// Calls `deno_ast::parse_module` on `text`, named `specifier`, as a source
/// of kind `media`. No tokens are captured and no scopes analysed. The
/// result depends on these three alone; an error comes back as its text,
/// and so does a `specifier` that is no URL.
/// A text with a byte order mark in front is kept out: `deno_ast` panics on
/// it where debug assertions are on.
#[verifier::external_body]
fn parse_module(specifier: &str, text: &str, media: MediaKind) -> (r: Result<
    ParsedSource,
    String,
>)
    requires
        !has_mark(text@),
    ensures
        match r {
            Ok(parsed) => parsed_module(specifier@, text@, media) == Ok::<_, Seq<char>>(parsed),
            Err(e) => parsed_module(specifier@, text@, media) == Err::<ParsedSource, _>(
                e@,
            ),
        },
{
    let media_type = match media {
        MediaKind::TypeScript => MediaType::TypeScript,
        MediaKind::Jsx => MediaType::Jsx,
        MediaKind::Tsx => MediaType::Tsx,
    };
    let specifier = ModuleSpecifier::parse(specifier).map_err(|e| e.to_string())?;
    let text = text.into();
    let params = ParseParams { specifier, text, media_type, capture_tokens: false, scope_analysis: false, maybe_syntax: None };
    deno_ast::parse_module(params).map_err(|e| e.to_string())
}

/// Calls `deno_ast::parse_program` on `text`, named `specifier`, as a source
/// of kind `media`. No tokens are captured and no scopes analysed. The
/// result depends on these three alone; an error comes back as its text,
/// and so does a `specifier` that is no URL.
/// A text with a byte order mark in front is kept out: `deno_ast` panics on
/// it where debug assertions are on.
#[verifier::external_body]
fn parse_program(specifier: &str, text: &str, media: MediaKind) -> (r: Result<
    ParsedSource,
    String,
>)
    requires
        !has_mark(text@),
    ensures
        match r {
            Ok(parsed) => parsed_program(specifier@, text@, media) == Ok::<_, Seq<char>>(parsed),
            Err(e) => parsed_program(specifier@, text@, media) == Err::<ParsedSource, _>(
                e@,
            ),
        },
{
    let media_type = match media {
        MediaKind::TypeScript => MediaType::TypeScript,
        MediaKind::Jsx => MediaType::Jsx,
        MediaKind::Tsx => MediaType::Tsx,
    };
    let specifier = ModuleSpecifier::parse(specifier).map_err(|e| e.to_string())?;
    let text = text.into();
    let params = ParseParams { specifier, text, media_type, capture_tokens: false, scope_analysis: false, maybe_syntax: None };
    deno_ast::parse_program(params).map_err(|e| e.to_string())
}

/// Calls `ParsedSource::transpile` on `parsed` with the settings of
/// `plan`, every other option as `deno_ast` sets it by default, and hands
/// back the emitted text. The result depends on the parsed source and these
/// settings alone; an error comes back as its text.
#[verifier::external_body]
fn emit(parsed: ParsedSource, plan: &TranspilePlan) -> (r: Result<String, String>)
    ensures
        match r {
            Ok(js) => emitted(
                parsed,
                plan@.decorators,
                plan@.jsx_import_source,
                plan@.source_maps,
                plan@.inline_sources,
            ) == Ok::<_, Seq<char>>(js@),
            Err(e) => emitted(
                parsed,
                plan@.decorators,
                plan@.jsx_import_source,
                plan@.source_maps,
                plan@.inline_sources,
            ) == Err::<Seq<char>, _>(e@),
        },
{
    let decorators = if plan.decorators { DecoratorsTranspileOption::Ecma } else { DecoratorsTranspileOption::None };
    let automatic = |import_source| JsxRuntime::Automatic(JsxAutomaticOptions { development: false, import_source: Some(import_source) });
    let jsx = plan.jsx_import_source.clone().map(automatic);
    let options = TranspileOptions { decorators, jsx, ..Default::default() };
    let source_map = match plan.source_maps {
        SourceMaps::Inline => SourceMapOption::Inline,
        SourceMaps::Separate => SourceMapOption::Separate,
        SourceMaps::Omitted => SourceMapOption::None,
    };
    let emit = EmitOptions { source_map, inline_sources: plan.inline_sources, ..Default::default() };
    let emitted = parsed.transpile(&options, &Default::default(), &emit);
    emitted.map(|r| r.into_source().text).map_err(|e| e.to_string())
}

/// What transpiling `source` by `plan` gives: the plain script text, or the
/// error that tells whether parsing or emitting failed, and how. Byte order
/// marks in front of `source` are dropped before anything else.
pub open spec fn transpiled(source: Seq<char>, plan: Plan) -> Result<Seq<char>, Refusal> {
    let text = without_mark(source);
    let parsed = match plan.mode {
        ParseMode::Module => parsed_module(plan.specifier, text, plan.media),
        ParseMode::Program => parsed_program(plan.specifier, text, plan.media),
    };
    match parsed {
        Err(diagnostic) => Err(Refusal::Parse(diagnostic)),
        Ok(tree) => match emitted(
            tree,
            plan.decorators,
            plan.jsx_import_source,
            plan.source_maps,
            plan.inline_sources,
        ) {
            Ok(js) => Ok(js),
            Err(reason) => Err(Refusal::Transpile(reason)),
        },
    }
}

/// Why a text was not transpiled, in a contract.
pub enum Refusal {
    /// The text was not well formed; the diagnostic says where.
    Parse(Seq<char>),
    /// The text was parsed but could not be turned into plain script.
    Transpile(Seq<char>),
}

/// A result of the transpiler as a contract speaks of it.
pub open spec fn outcome(r: Result<String, Error>) -> Option<Result<Seq<char>, Refusal>> {
    match r {
        Ok(js) => Some(Ok(js@)),
        Err(Error::Parse(diagnostic)) => Some(Err(Refusal::Parse(diagnostic@))),
        Err(Error::Transpile(reason)) => Some(Err(Refusal::Transpile(reason@))),
        Err(_) => None,
    }
}

/// `source` without the byte order marks in front of it.
fn strip_mark(source: &str) -> (text: String)
    ensures
        text@ == without_mark(source@),
        !has_mark(text@),
{
    let chars = chars_of(source);
    if chars.len() == 0 || chars[0] != '\u{feff}' {
        return String::from_str(source);
    }
    let mut start: usize = 0;
    assert(chars@.skip(0) == chars@);
    while start < chars.len() && chars[start] == '\u{feff}'
        invariant
            start <= chars.len(),
            without_mark(chars@) == without_mark(chars@.skip(start as int)),
        decreases chars.len() - start,
    {
        assert(chars@.skip(start as int).skip(1) == chars@.skip(start + 1));
        start += 1;
    }
    let mut rest: Vec<char> = Vec::new();
    let mut i: usize = start;
    while i < chars.len()
        invariant
            start <= i <= chars.len(),
            rest@ == chars@.subrange(start as int, i as int),
        decreases chars.len() - i,
    {
        rest.push(chars[i]);
        i += 1;
        assert(chars@.subrange(start as int, i as int) == chars@.subrange(
            start as int,
            i - 1,
        ).push(chars@[i - 1]));
    }
    assert(rest@ == chars@.skip(start as int));
    text_of(&rest)
}

/// Classifies what came back from the emitter for a source that was parsed.
pub fn emitted_result(js: Result<String, String>) -> (r: Result<String, Error>)
    ensures
        match js {
            Ok(text) => r == Ok::<String, Error>(text),
            Err(reason) => r == Err::<String, Error>(Error::Transpile(reason)),
        },
{
    match js {
        Ok(text) => Ok(text),
        Err(reason) => Err(Error::Transpile(reason)),
    }
}

/// Transpiles `source` as `plan` has it.
///
/// A text that cannot be parsed gives `Error::Parse` with the text of the
/// diagnostic, one that cannot be emitted gives `Error::Transpile` with the
/// text of the reason. No other error is returned, and equal sources with
/// equal plans give equal results.
pub fn transpile_with(source: &str, plan: &TranspilePlan) -> (r: Result<String, Error>)
    ensures
        outcome(r) == Some(transpiled(source@, plan@)),
{
    let text = strip_mark(source);
    let parsed = match plan.mode {
        ParseMode::Module => parse_module(plan.specifier.as_str(), text.as_str(), plan.media),
        ParseMode::Program => parse_program(plan.specifier.as_str(), text.as_str(), plan.media),
    };
    match parsed {
        Err(diagnostic) => Err(Error::Parse(diagnostic)),
        Ok(tree) => emitted_result(emit(tree, plan)),
    }
}

/// Transpiles a script, such as the source of a named function, to plain
/// script text. Without a kind the source is taken for TypeScript.
pub fn transpile(source: &str, ty: Option<MediaKind>) -> (r: Result<String, Error>)
    ensures
        outcome(r) == Some(
            transpiled(
                source@,
                plan_for(
                    match ty {
                        Some(kind) => kind,
                        None => MediaKind::TypeScript,
                    },
                    ParseMode::Program,
                ),
            ),
        ),
{
    let media = match ty {
        Some(kind) => kind,
        None => MediaKind::TypeScript,
    };
    let plan = TranspilePlan::new(media, ParseMode::Program);
    transpile_with(source, &plan)
}

/// Transpiles a module of kind `media` to a plain module.
pub fn transpile_module(source: &str, media: MediaKind) -> (r: Result<String, Error>)
    ensures
        outcome(r) == Some(transpiled(source@, plan_for(media, ParseMode::Module))),
{
    let plan = TranspilePlan::new(media, ParseMode::Module);
    transpile_with(source, &plan)
}

/// Transpiles a JSX module to a plain module that builds its elements with
/// the factory `jsx` of the module `/jsx-runtime`.
pub fn transpile_jsx(source: &str) -> (r: Result<String, Error>)
    ensures
        outcome(r) == Some(transpiled(source@, plan_for(MediaKind::Jsx, ParseMode::Module))),
{
    transpile_module(source, MediaKind::Jsx)
}

/// Transpiles a TypeScript module to a plain module.
pub fn transpile_ts(source: &str) -> (r: Result<String, Error>)
    ensures
        outcome(r) == Some(transpiled(source@, plan_for(MediaKind::TypeScript, ParseMode::Module))),
{
    transpile_module(source, MediaKind::TypeScript)
}

} // verus!
