//! An embedded scripting runtime, as far as it can be stated and proved:
//! how module names are resolved and modules loaded, how sources are
//! transpiled, how pages are bundled, how a request becomes an evaluation
//! and an evaluation a reply, and what a worker does in which order.

pub mod config;
pub mod console;
pub mod error;
pub mod loader;
pub mod pages;
pub mod resolver;
pub mod script;
pub mod text;
pub mod transpiler;
pub mod tree;
pub mod worker;

pub use config::{ContextConfig, RuntimeConfig};
pub use console::Console;
pub use error::Error;
pub use script::{Function, FunctionTable, Script, ScriptOutput, ScriptResult};
