//! What a runtime is made with.

use include_dir::Dir;
use std::collections::HashMap;
use vstd::prelude::*;
use vstd::string::*;

verus! {

/// The settings of the module loader.
pub struct ContextConfig<'a> {
    /// The source tree that modules are loaded from, if there is one.
    pub js_src: Option<Dir<'a>>,
}

impl<'a> Default for ContextConfig<'a> {
    /// No source tree.
    fn default() -> (config: Self)
        ensures
            config.js_src is None,
    {
        ContextConfig { js_src: None }
    }
}

/// The settings of a runtime.
pub struct RuntimeConfig<'a> {
    /// How many workers are started. At least one is needed for any request
    /// to be answered.
    pub workers: usize,
    /// The functions that every worker compiles at its start, as source
    /// text by name.
    pub functions: Option<HashMap<String, String>>,
    /// The source tree that modules and pages are loaded from.
    pub js_src: Option<Dir<'a>>,
    /// The directory of the source tree that holds the page templates.
    pub pages_dir: String,
}

impl<'a> Default for RuntimeConfig<'a> {
    /// Five workers, no functions, no source tree, and pages in `pages`.
    fn default() -> (config: Self)
        ensures
            config.workers == 5,
            config.functions matches Some(functions) && functions@ == Map::<
                String,
                String,
            >::empty(),
            config.js_src is None,
            config.pages_dir@ == "pages"@,
    {
        RuntimeConfig {
            workers: 5,
            functions: Some(HashMap::new()),
            js_src: None,
            pages_dir: String::from_str("pages"),
        }
    }
}

} // verus!
