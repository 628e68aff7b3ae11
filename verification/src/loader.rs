//! The module loader: from the canonical name of a module to the plain
//! script text that the engine runs for it.

use include_dir::Dir;
use vstd::prelude::*;
use vstd::string::*;
use vstd::utf8::{decode_utf8, valid_utf8};
use crate::error::Error;
use crate::text::{chars_of, has_suffix, same_text};
use crate::transpiler::{outcome, plan_for, transpile_module, transpiled, MediaKind, ParseMode, Refusal};
use crate::tree::{entry, found_at, text, Entry, Found};

verus! {

/// The name of the module that holds the JSX runtime. It is no file of the
/// source tree: its text is part of this crate.
pub const JSX_RUNTIME: &'static str = "/jsx-runtime";

/// The text of the JSX runtime: the factory `jsx` that transpiled pages
/// call, with the other names that the automatic runtime imports. An element
/// is rendered to markup at once; text is escaped, markup that is already
/// rendered is not.
pub const JSX_RUNTIME_SOURCE: &'static str = r#"const VOID = new Set(["area", "base", "br", "col", "embed", "hr", "img", "input", "link", "meta", "source", "track", "wbr"]);

class Markup {
  constructor(text) {
    this.text = text;
  }
  toString() {
    return this.text;
  }
}

function escapeText(value) {
  return String(value).replace(/&/g, "&amp;").replace(/</g, "&lt;").replace(/>/g, "&gt;");
}

function escapeAttribute(value) {
  return escapeText(value).replace(/"/g, "&quot;");
}

function render(child) {
  if (child === null || child === undefined || child === false || child === true) {
    return "";
  }
  if (Array.isArray(child)) {
    return child.map(render).join("");
  }
  if (child instanceof Markup) {
    return child.text;
  }
  return escapeText(child);
}

export function jsx(type, props) {
  props = props || {};
  if (typeof type === "function") {
    return type(props);
  }
  let attributes = "";
  for (const key of Object.keys(props)) {
    const value = props[key];
    if (key === "children" || value === null || value === undefined || value === false) {
      continue;
    }
    const name = key === "className" ? "class" : key;
    attributes += value === true ? " " + name : " " + name + "=\"" + escapeAttribute(value) + "\"";
  }
  if (VOID.has(type)) {
    return new Markup("<" + type + attributes + ">");
  }
  return new Markup("<" + type + attributes + ">" + render(props.children) + "</" + type + ">");
}

export const jsxs = jsx;

export const jsxDEV = jsx;

export function Fragment(props) {
  return new Markup(render(props && props.children));
}
"#;

/// Why a module was not loaded.
#[derive(Debug, PartialEq, Eq)]
pub enum LoadError {
    /// Nothing to load lies under the name, which is given.
    ModuleNotFound(String),
    /// The file under the name, which is given, is no UTF-8 text.
    EncodingError(String),
    /// The file was read, but the transpiler refused its text.
    Transpile(Error),
}

/// What is said of a failure, in a contract.
pub open spec fn message_of(error: LoadError) -> Seq<char> {
    match error {
        LoadError::ModuleNotFound(name) => "Module "@ + name@ + " not found"@,
        LoadError::EncodingError(name) => "Module "@ + name@ + " is not valid UTF-8"@,
        LoadError::Transpile(error) => error.text(),
    }
}

impl LoadError {
    /// What the importing script is told: which module was not found or
    /// could not be read, or what the transpiler said.
    pub fn message(&self) -> (text: String)
        ensures
            text@ == message_of(*self),
    {
        match self {
            LoadError::ModuleNotFound(name) => {
                let mut text = String::from_str("Module ");
                text.append(name.as_str());
                text.append(" not found");
                text
            },
            LoadError::EncodingError(name) => {
                let mut text = String::from_str("Module ");
                text.append(name.as_str());
                text.append(" is not valid UTF-8");
                text
            },
            LoadError::Transpile(error) => error.message(),
        }
    }
}

/// Why a module was not loaded, in a contract.
pub enum LoadFailure {
    ModuleNotFound(Seq<char>),
    EncodingError(Seq<char>),
    Transpile(Refusal),
}

/// The directory index: the file that stands for a directory when the
/// directory itself is imported.
pub open spec fn index_of(name: Seq<char>) -> Seq<char> {
    name + "/index.js"@
}

/// The bytes of the file that the name of a module leads to: those of the
/// file under the name, or those of the index of the directory under it.
pub open spec fn file_at(tree: Dir<'_>, name: Seq<char>) -> Option<Seq<u8>> {
    match found_at(tree, name) {
        Found::File(bytes) => Some(bytes),
        Found::Directory(_) => match found_at(tree, index_of(name)) {
            Found::File(bytes) => Some(bytes),
            _ => None,
        },
        Found::Nothing => None,
    }
}

/// The text that the source tree holds for the module `name`. Without a
/// tree no module is found.
pub open spec fn stored(tree: Option<&Dir<'_>>, name: Seq<char>) -> Result<Seq<char>, LoadFailure> {
    match tree {
        None => Err(LoadFailure::ModuleNotFound(name)),
        Some(tree) => match file_at(*tree, name) {
            None => Err(LoadFailure::ModuleNotFound(name)),
            Some(bytes) => if valid_utf8(bytes) {
                Ok(decode_utf8(bytes))
            } else {
                Err(LoadFailure::EncodingError(name))
            },
        },
    }
}

/// The kind of source that a module holds by the ending of its name, where
/// it is one that must be transpiled.
pub open spec fn media_of(name: Seq<char>) -> Option<MediaKind> {
    if ".jsx"@.is_suffix_of(name) {
        Some(MediaKind::Jsx)
    } else if ".tsx"@.is_suffix_of(name) {
        Some(MediaKind::Tsx)
    } else if ".ts"@.is_suffix_of(name) {
        Some(MediaKind::TypeScript)
    } else {
        None
    }
}

/// The text that the engine is given for the module `name` whose stored
/// text is `text`: transpiled where the name ends in `.jsx`, `.tsx` or
/// `.ts`, and as it is stored otherwise.
pub open spec fn prepared(name: Seq<char>, text: Seq<char>) -> Result<Seq<char>, LoadFailure> {
    match media_of(name) {
        None => Ok(text),
        Some(media) => match transpiled(text, plan_for(media, ParseMode::Module)) {
            Ok(js) => Ok(js),
            Err(refusal) => Err(LoadFailure::Transpile(refusal)),
        },
    }
}

/// The text that the engine is given for the module `name`.
pub open spec fn loaded(tree: Option<&Dir<'_>>, name: Seq<char>) -> Result<Seq<char>, LoadFailure> {
    if name == JSX_RUNTIME@ {
        Ok(JSX_RUNTIME_SOURCE@)
    } else {
        match stored(tree, name) {
            Err(failure) => Err(failure),
            Ok(text) => prepared(name, text),
        }
    }
}

/// A result of the loader as a contract speaks of it.
pub open spec fn load_outcome(r: Result<String, LoadError>) -> Option<Result<Seq<char>, LoadFailure>> {
    match r {
        Ok(js) => Some(Ok(js@)),
        Err(LoadError::ModuleNotFound(name)) => Some(Err(LoadFailure::ModuleNotFound(name@))),
        Err(LoadError::EncodingError(name)) => Some(Err(LoadFailure::EncodingError(name@))),
        Err(LoadError::Transpile(Error::Parse(d))) => Some(
            Err(LoadFailure::Transpile(Refusal::Parse(d@))),
        ),
        Err(LoadError::Transpile(Error::Transpile(d))) => Some(
            Err(LoadFailure::Transpile(Refusal::Transpile(d@))),
        ),
        Err(LoadError::Transpile(_)) => None,
    }
}

/// The kind of source that the module `name` holds, where its text must be
/// transpiled before the engine can run it.
pub fn media_kind(name: &str) -> (media: Option<MediaKind>)
    ensures
        media == media_of(name@),
{
    let chars = chars_of(name);
    if has_suffix(&chars, &chars_of(".jsx")) {
        Some(MediaKind::Jsx)
    } else if has_suffix(&chars, &chars_of(".tsx")) {
        Some(MediaKind::Tsx)
    } else if has_suffix(&chars, &chars_of(".ts")) {
        Some(MediaKind::TypeScript)
    } else {
        None
    }
}

/// Reads the text of the module `name` out of the source tree.
///
/// The name is looked up as it is. Where it leads to a directory, the file
/// `index.js` in that directory stands for it. Nothing under the name, or a
/// directory without that file, gives `ModuleNotFound`; a file that is no
/// UTF-8 text gives `EncodingError`.
pub fn stored_text<'a>(tree: Option<&'a Dir<'_>>, name: &str) -> (r: Result<&'a str, LoadError>)
    ensures
        match r {
            Ok(text) => stored(tree, name@) == Ok::<_, LoadFailure>(text@),
            Err(error) => load_outcome(Err(error)) == Some(stored(tree, name@)),
        },
{
    let tree = match tree {
        Some(tree) => tree,
        None => {
            return Err(LoadError::ModuleNotFound(String::from_str(name)));
        },
    };
    let file = match entry(tree, name) {
        Entry::File(file) => file,
        Entry::Directory(_) => {
            let mut index = String::from_str(name);
            index.append("/index.js");
            match entry(tree, index.as_str()) {
                Entry::File(file) => file,
                _ => {
                    return Err(LoadError::ModuleNotFound(String::from_str(name)));
                },
            }
        },
        Entry::Nothing => {
            return Err(LoadError::ModuleNotFound(String::from_str(name)));
        },
    };
    match text(file) {
        Some(text) => Ok(text),
        None => Err(LoadError::EncodingError(String::from_str(name))),
    }
}

/// Makes the stored text of the module `name` ready for the engine: a text
/// whose name ends in `.jsx`, `.tsx` or `.ts` is transpiled as a module of
/// that kind, any other is handed on as it is.
pub fn prepare_module(name: &str, text: &str) -> (r: Result<String, LoadError>)
    ensures
        load_outcome(r) == Some(prepared(name@, text@)),
{
    match media_kind(name) {
        None => Ok(String::from_str(text)),
        Some(media) => match transpile_module(text, media) {
            Ok(js) => Ok(js),
            Err(error) => {
                assert(outcome(Err(error)) is Some);
                Err(LoadError::Transpile(error))
            },
        },
    }
}

/// Loads the module `module_name`: the text that the engine runs for it.
///
/// The JSX runtime is always there, with or without a source tree. Every
/// other module is read from the tree and transpiled where its name asks
/// for it.
pub fn module_loader(module_name: &str, tree: Option<&Dir<'_>>) -> (r: Result<String, LoadError>)
    ensures
        load_outcome(r) == Some(loaded(tree, module_name@)),
{
    if same_text(&chars_of(module_name), &chars_of(JSX_RUNTIME)) {
        return Ok(String::from_str(JSX_RUNTIME_SOURCE));
    }
    match stored_text(tree, module_name) {
        Err(error) => Err(error),
        Ok(text) => prepare_module(module_name, text),
    }
}

} // verus!
