//! The page bundle: which files of the source tree are page templates, the
//! module that imports them all into the page registry, and the script that
//! renders one of them.

use include_dir::Dir;
use vstd::prelude::*;
use vstd::string::*;
use crate::resolver::{components, path_components};
use crate::tree::{entry, files, found_at, Entry, Found};
use crate::text::{chars_of, first_chars, has_suffix, join_strings, joined, string_texts, text_of};

verus! {

/// The ending `.jsx` that marks a file as a page template.
pub open spec fn page_ending() -> Seq<char> {
    seq!['.', 'j', 's', 'x']
}

/// The name of the page that the file at `path` holds, if it holds one: the
/// file's own name without the ending `.jsx`. A file whose name ends
/// otherwise, or is nothing but the ending, is no page.
pub open spec fn page_name_of(path: Seq<char>) -> Option<Seq<char>> {
    let parts = components(path);
    if parts.len() > 0 && page_ending().is_suffix_of(parts.last()) && parts.last().len() > 4 {
        Some(parts.last().take(parts.last().len() - 4))
    } else {
        None
    }
}

/// The names of the pages among `paths`, in the order of their files.
pub open spec fn page_names_of(paths: Seq<Seq<char>>) -> Seq<Seq<char>> {
    paths.filter_map(|path: Seq<char>| page_name_of(path))
}

/// The line that imports the page `name` out of the directory `pages_dir`.
pub open spec fn import_line(pages_dir: Seq<char>, name: Seq<char>) -> Seq<char> {
    "import "@ + name + " from '"@ + pages_dir + "/"@ + name + ".jsx'"@
}

/// The import lines of `names`, in order.
pub open spec fn import_lines(pages_dir: Seq<char>, names: Seq<Seq<char>>) -> Seq<Seq<char>> {
    names.map_values(|name: Seq<char>| import_line(pages_dir, name))
}

/// The text of the bundle module: one import line for each page, then the
/// statement that binds all of them to the page registry.
pub open spec fn bundle_text(pages_dir: Seq<char>, names: Seq<Seq<char>>) -> Seq<char> {
    joined(import_lines(pages_dir, names), "\n"@) + "\nglobalThis.__pages = { "@ + joined(
        names,
        ", "@,
    ) + " };"@
}

/// The script that renders the page `name` with the arguments of the request.
pub open spec fn invoker_text(name: Seq<char>) -> Seq<char> {
    "globalThis.__pages."@ + name + "(args);"@
}

/// The script that renders the page `name` if the registry holds it, and
/// says that the page was not found if it does not.
pub open spec fn fallback_text(name: Seq<char>) -> Seq<char> {
    "globalThis.__pages."@ + name + " ? globalThis.__pages."@ + name + "(args) : 'Page \""@
        + name + "\" not found'"@
}

/// The name of the page in the file at `path`, where that file is a page.
pub fn page_name(path: &str) -> (name: Option<String>)
    ensures
        match name {
            Some(n) => page_name_of(path@) == Some(n@),
            None => page_name_of(path@) is None,
        },
{
    let parts = path_components(&chars_of(path));
    if parts.len() == 0 {
        return None;
    }
    let file = &parts[parts.len() - 1];
    assert(file@ == components(path@).last());
    let mut ending: Vec<char> = Vec::new();
    ending.push('.');
    ending.push('j');
    ending.push('s');
    ending.push('x');
    assert(ending@ == page_ending());
    if has_suffix(file, &ending) && file.len() > 4 {
        Some(text_of(&first_chars(file, file.len() - 4)))
    } else {
        None
    }
}

/// The names of the pages among the files at `paths`, in the order of the
/// files. Files that are no pages are passed over.
pub fn page_names(paths: &Vec<String>) -> (names: Vec<String>)
    ensures
        string_texts(names@) == page_names_of(string_texts(paths@)),
{
    let mut names: Vec<String> = Vec::new();
    let mut i: usize = 0;
    proof {
        assert(string_texts(paths@).take(0) == Seq::<Seq<char>>::empty());
        assert(string_texts(names@) == Seq::<Seq<char>>::empty());
    }
    while i < paths.len()
        invariant
            i <= paths.len(),
            string_texts(names@) == page_names_of(string_texts(paths@).take(i as int)),
        decreases paths.len() - i,
    {
        proof {
            let next = string_texts(paths@).take(i + 1);
            assert(next.drop_last() == string_texts(paths@).take(i as int));
            assert(next.last() == paths@[i as int]@);
        }
        let ghost before = string_texts(names@);
        match page_name(paths[i].as_str()) {
            Some(name) => {
                names.push(name);
                assert(string_texts(names@) == before + seq![name@]);
            },
            None => {},
        }
        i += 1;
    }
    assert(string_texts(paths@).take(paths.len() as int) == string_texts(paths@));
    names
}

/// The text of the bundle module for the pages `names` that lie in the
/// directory `pages_dir` of the source tree. Evaluated as a module, it has
/// the loader fetch every page and leaves them in `globalThis.__pages`.
pub fn page_bundle(pages_dir: &str, names: &Vec<String>) -> (text: String)
    ensures
        text@ == bundle_text(pages_dir@, string_texts(names@)),
{
    let mut lines: Vec<String> = Vec::new();
    let mut i: usize = 0;
    let ghost wanted = import_lines(pages_dir@, string_texts(names@));
    while i < names.len()
        invariant
            i <= names.len(),
            wanted == import_lines(pages_dir@, string_texts(names@)),
            string_texts(lines@) == wanted.take(i as int),
        decreases names.len() - i,
    {
        let name = names[i].as_str();
        let mut line = String::from_str("import ");
        line.append(name);
        line.append(" from '");
        line.append(pages_dir);
        line.append("/");
        line.append(name);
        line.append(".jsx'");
        let ghost before = string_texts(lines@);
        lines.push(line);
        assert(string_texts(lines@) == before.push(line@));
        i += 1;
        assert(wanted.take(i as int) == wanted.take(i - 1).push(wanted[i - 1]));
    }
    assert(wanted.take(names.len() as int) == wanted);
    let mut text = join_strings(&lines, "\n");
    text.append("\nglobalThis.__pages = { ");
    text.append(join_strings(names, ", ").as_str());
    text.append(" };");
    text
}

/// The script that renders the page `name`: a call of its entry in the page
/// registry with the arguments of the request.
pub fn page_invoker(name: &str) -> (text: String)
    ensures
        text@ == invoker_text(name@),
{
    let mut text = String::from_str("globalThis.__pages.");
    text.append(name);
    text.append("(args);");
    text
}

/// The script that stands in for the invoker of the page `name` where none
/// was compiled: it renders the page if the registry holds it after all, and
/// gives the text `Page "<name>" not found` if not.
pub fn page_fallback(name: &str) -> (text: String)
    ensures
        text@ == fallback_text(name@),
{
    let mut text = String::from_str("globalThis.__pages.");
    text.append(name);
    text.append(" ? globalThis.__pages.");
    text.append(name);
    text.append("(args) : 'Page \"");
    text.append(name);
    text.append("\" not found'");
    text
}

/// The names of the pages that the source tree holds in its directory
/// `pages_dir`. Without a tree, or without that directory, there are none.
pub open spec fn pages_in(tree: Option<&Dir<'_>>, pages_dir: Seq<char>) -> Seq<Seq<char>> {
    match tree {
        None => Seq::empty(),
        Some(tree) => match found_at(*tree, pages_dir) {
            Found::Directory(paths) => page_names_of(paths),
            _ => Seq::empty(),
        },
    }
}

/// Finds the pages of the source tree: the names of the page templates that
/// lie directly in its directory `pages_dir`, in the order of their files.
pub fn discover_pages(tree: Option<&Dir<'_>>, pages_dir: &str) -> (names: Vec<String>)
    ensures
        string_texts(names@) == pages_in(tree, pages_dir@),
{
    match tree {
        None => Vec::new(),
        Some(tree) => match entry(tree, pages_dir) {
            Entry::Directory(dir) => page_names(&files(dir)),
            _ => Vec::new(),
        },
    }
}

} // verus!
