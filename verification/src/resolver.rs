//! The module resolver: from the name of the importing module and the
//! specifier it wrote, to the canonical name under which the source tree is
//! asked for the module.
//!
//! A name is a `/`-separated path. A specifier that begins with `./` or `../`
//! is read relative to the directory of the importing module; every other
//! specifier is already a name.

use vstd::prelude::*;
use crate::text::{chars_of, join, joined, push_all, text_of, texts};

verus! {

/// The text `.`, which names the directory it stands in.
pub open spec fn here() -> Seq<char> {
    seq!['.']
}

/// The text `..`, which names the directory above.
pub open spec fn up() -> Seq<char> {
    seq!['.', '.']
}

/// The text `/`, which separates the segments of a path.
pub open spec fn slash() -> Seq<char> {
    seq!['/']
}

/// The segments of `path`: the runs of characters between its `/`.
/// A path without `/` is one segment; `n` separators give `n + 1` segments,
/// some of them empty where separators touch or stand at an end.
pub open spec fn split(path: Seq<char>) -> Seq<Seq<char>>
    decreases path.len(),
{
    if path.len() == 0 {
        seq![Seq::empty()]
    } else {
        let before = split(path.drop_last());
        if path.last() == '/' {
            before.push(Seq::empty())
        } else {
            before.drop_last().push(before.last().push(path.last()))
        }
    }
}

/// A segment that names something: it is not empty, as the one before a
/// leading `/` is, and it is not `.`.
pub open spec fn is_name(segment: Seq<char>) -> bool {
    segment.len() > 0 && segment != here()
}

/// The components of `path`: its segments that name something, in order.
/// The root of an absolute path and every `.` are left out: on the walk
/// neither of them changes the list, the root because it can only come first.
pub open spec fn components(path: Seq<char>) -> Seq<Seq<char>> {
    names(split(path))
}

/// Those of `segments` that name something, in order.
pub open spec fn names(segments: Seq<Seq<char>>) -> Seq<Seq<char>> {
    segments.filter(|s: Seq<char>| is_name(s))
}

/// The components of the directory that holds `base`: all but the last.
pub open spec fn parent(base: Seq<char>) -> Seq<Seq<char>> {
    let all = components(base);
    if all.len() == 0 {
        all
    } else {
        all.drop_last()
    }
}

/// One step of the walk: `..` takes back the component before it, unless
/// there is none or it is itself `..`; then `..` stays. Any other component
/// is appended.
pub open spec fn step(out: Seq<Seq<char>>, component: Seq<char>) -> Seq<Seq<char>> {
    if component == up() && out.len() > 0 && out.last() != up() {
        out.drop_last()
    } else {
        out.push(component)
    }
}

/// The walk over `input` from left to right, starting with the empty list.
pub open spec fn walk(input: Seq<Seq<char>>) -> Seq<Seq<char>>
    decreases input.len(),
{
    if input.len() == 0 {
        Seq::empty()
    } else {
        step(walk(input.drop_last()), input.last())
    }
}

/// A specifier that is read relative to the importing module.
pub open spec fn is_relative(specifier: Seq<char>) -> bool {
    ||| (specifier.len() >= 2 && specifier[0] == '.' && specifier[1] == '/')
    ||| (specifier.len() >= 3 && specifier[0] == '.' && specifier[1] == '.' && specifier[2]
        == '/')
}

/// The components of the canonical name of a relative `specifier` written in
/// the module `base`.
pub open spec fn resolved(base: Seq<char>, specifier: Seq<char>) -> Seq<Seq<char>> {
    walk(parent(base) + components(specifier))
}

/// The canonical name of `specifier` written in the module `base`.
pub open spec fn normalized(base: Seq<char>, specifier: Seq<char>) -> Seq<char> {
    if is_relative(specifier) {
        joined(resolved(base, specifier), slash())
    } else {
        specifier
    }
}

/// A list of components as the walk leaves it: each names something and holds
/// no `/`, and `..` stands only at the front, before every other component.
pub open spec fn canonical(parts: Seq<Seq<char>>) -> bool {
    &&& forall|i: int| 0 <= i < parts.len() ==> is_name(#[trigger] parts[i])
    &&& forall|i: int| 0 <= i < parts.len() ==> !(#[trigger] parts[i]).contains('/')
    &&& forall|i: int, j: int|
        0 <= i < j < parts.len() && #[trigger] parts[j] == up() ==> #[trigger] parts[i] == up()
}

/// Every path has at least one segment.
pub proof fn lemma_split_nonempty(path: Seq<char>)
    ensures
        split(path).len() >= 1,
    decreases path.len(),
{
    if path.len() > 0 {
        lemma_split_nonempty(path.drop_last());
    }
}

/// Whether `segment` is `.`.
fn is_here(segment: &Vec<char>) -> (r: bool)
    ensures
        r == (segment@ == here()),
{
    let r = segment.len() == 1 && segment[0] == '.';
    assert(r ==> segment@ =~= here());
    assert(segment@ == here() ==> segment@.len() == 1 && segment@[0] == '.');
    r
}

/// Whether `segment` is `..`.
fn is_up(segment: &Vec<char>) -> (r: bool)
    ensures
        r == (segment@ == up()),
{
    let r = segment.len() == 2 && segment[0] == '.' && segment[1] == '.';
    assert(r ==> segment@ =~= up());
    assert(segment@ == up() ==> segment@.len() == 2 && segment@[0] == '.' && segment@[1] == '.');
    r
}

/// Whether `specifier` begins with `./` or `../`.
fn relative(specifier: &Vec<char>) -> (r: bool)
    ensures
        r == is_relative(specifier@),
{
    if specifier.len() >= 2 && specifier[0] == '.' && specifier[1] == '/' {
        true
    } else {
        specifier.len() >= 3 && specifier[0] == '.' && specifier[1] == '.' && specifier[2] == '/'
    }
}

/// Filtering a list with one more element at its end.
proof fn lemma_names_push(segments: Seq<Seq<char>>, last: Seq<char>)
    ensures
        names(segments.push(last)) == if is_name(last) {
            names(segments).push(last)
        } else {
            names(segments)
        },
{
    reveal(Seq::filter);
    assert(segments.push(last).drop_last() == segments);
}

/// Splits `path` at its `/` and keeps the segments that name something.
pub fn path_components(path: &Vec<char>) -> (found: Vec<Vec<char>>)
    ensures
        texts(found@) == components(path@),
{
    let mut found: Vec<Vec<char>> = Vec::new();
    let mut current: Vec<char> = Vec::new();
    let mut i: usize = 0;
    proof {
        reveal(Seq::filter);
        assert(path@.take(0) == Seq::<char>::empty());
        assert(split(path@.take(0)).drop_last() == Seq::<Seq<char>>::empty());
        assert(texts(found@) == Seq::<Seq<char>>::empty());
    }
    while i < path.len()
        invariant
            i <= path.len(),
            split(path@.take(i as int)).len() >= 1,
            texts(found@) == names(split(path@.take(i as int)).drop_last()),
            current@ == split(path@.take(i as int)).last(),
        decreases path.len() - i,
    {
        let ghost before = split(path@.take(i as int));
        let ghost next = path@.take(i + 1);
        proof {
            assert(next.drop_last() == path@.take(i as int));
            assert(next.last() == path@[i as int]);
            lemma_split_nonempty(next);
        }
        let c = path[i];
        if c == '/' {
            proof {
                assert(split(next) == before.push(Seq::empty()));
                assert(split(next).drop_last() == before);
                assert(before == before.drop_last().push(before.last()));
                lemma_names_push(before.drop_last(), before.last());
            }
            if current.len() > 0 && !is_here(&current) {
                let ghost old_found = found@;
                found.push(current);
                assert(texts(found@) == texts(old_found).push(before.last()));
            }
            current = Vec::new();
        } else {
            proof {
                assert(split(next) == before.drop_last().push(before.last().push(c)));
                assert(split(next).drop_last() == before.drop_last());
            }
            current.push(c);
        }
        i += 1;
    }
    proof {
        let all = split(path@);
        assert(path@.take(path.len() as int) == path@);
        assert(all == all.drop_last().push(all.last()));
        lemma_names_push(all.drop_last(), all.last());
    }
    if current.len() > 0 && !is_here(&current) {
        let ghost old_found = found@;
        let ghost last = current@;
        found.push(current);
        assert(texts(found@) == texts(old_found).push(last));
    }
    found
}

/// Walks over `input` from left to right: `..` takes back the component
/// before it where there is one that is not `..`, anything else is appended.
pub fn walk_components(input: &Vec<Vec<char>>) -> (out: Vec<Vec<char>>)
    ensures
        texts(out@) == walk(texts(input@)),
{
    let mut out: Vec<Vec<char>> = Vec::new();
    let mut i: usize = 0;
    proof {
        assert(texts(input@).take(0) == Seq::<Seq<char>>::empty());
        assert(texts(out@) == Seq::<Seq<char>>::empty());
    }
    while i < input.len()
        invariant
            i <= input.len(),
            texts(out@) == walk(texts(input@).take(i as int)),
        decreases input.len() - i,
    {
        let ghost before = texts(out@);
        proof {
            let next = texts(input@).take(i + 1);
            assert(next.drop_last() == texts(input@).take(i as int));
            assert(next.last() == input@[i as int]@);
        }
        let component = &input[i];
        let back = is_up(component) && out.len() > 0 && !is_up(&out[out.len() - 1]);
        assert(out.len() > 0 ==> before.last() == out@[out.len() - 1]@);
        if back {
            out.pop();
            assert(texts(out@) == before.drop_last());
        } else {
            let mut copy: Vec<char> = Vec::new();
            push_all(&mut copy, component);
            out.push(copy);
            assert(copy@ == component@);
            assert(texts(out@) == before.push(component@));
        }
        i += 1;
    }
    assert(texts(input@).take(input.len() as int) == texts(input@));
    out
}

/// The canonical name of the module that `module_name` means when it is
/// written in the module `module_base_name`.
///
/// A specifier that does not begin with `./` or `../` is returned as it is.
/// Any other is joined to the directory of the importing module; the walk
/// over the components of that path gives the name, its components joined by
/// `/`. Neither the source tree nor anything else is consulted.
pub fn module_normalize(module_base_name: &str, module_name: &str) -> (name: String)
    ensures
        name@ == normalized(module_base_name@, module_name@),
{
    let specifier = chars_of(module_name);
    if !relative(&specifier) {
        return text_of(&specifier);
    }
    let base = chars_of(module_base_name);
    let mut input = path_components(&base);
    if input.len() > 0 {
        let ghost all = texts(input@);
        input.pop();
        assert(texts(input@) == all.drop_last());
    }
    let ghost directory = texts(input@);
    let mut rest = path_components(&specifier);
    let ghost added = texts(rest@);
    input.append(&mut rest);
    assert(texts(input@) == directory + added);
    let out = walk_components(&input);
    let mut separator: Vec<char> = Vec::new();
    separator.push('/');
    assert(separator@ == slash());
    text_of(&join(&out, &separator))
}

/// Splitting loses nothing: the segments of a path hold no `/`, and joined by
/// `/` they give the path back.
pub proof fn lemma_split_joins_back(path: Seq<char>)
    ensures
        joined(split(path), slash()) == path,
        forall|i: int| 0 <= i < split(path).len() ==> !(#[trigger] split(path)[i]).contains('/'),
    decreases path.len(),
{
    if path.len() == 0 {
        assert(joined(split(path), slash()) == path);
    } else {
        let front = path.drop_last();
        let before = split(front);
        lemma_split_joins_back(front);
        lemma_split_nonempty(front);
        assert(path == front.push(path.last()));
        if path.last() == '/' {
            let parts = before.push(Seq::empty());
            assert(parts.drop_last() == before);
            assert(joined(parts, slash()) == joined(before, slash()) + slash() + Seq::<char>::empty());
            assert(joined(parts, slash()) == path);
        } else {
            let grown = before.last().push(path.last());
            let parts = before.drop_last().push(grown);
            assert(parts.drop_last() == before.drop_last());
            if before.len() == 1 {
                assert(joined(before, slash()) == before[0]);
                assert(joined(parts, slash()) == grown);
            } else {
                assert(joined(parts, slash()) == joined(before.drop_last(), slash()) + slash()
                    + grown);
                assert(joined(before, slash()) == joined(before.drop_last(), slash()) + slash()
                    + before.last());
                assert(joined(parts, slash()) == joined(before, slash()).push(path.last()));
            }
            assert(joined(parts, slash()) == path);
            assert forall|i: int| 0 <= i < parts.len() implies !(#[trigger] parts[i]).contains(
                '/',
            ) by {
                if i < parts.len() - 1 {
                    assert(parts[i] == before[i]);
                } else {
                    assert(!before[before.len() - 1].contains('/'));
                    if grown.contains('/') {
                        let k = choose|k: int| 0 <= k < grown.len() && grown[k] == '/';
                        assert(before.last()[k] == '/');
                    }
                }
            }
        }
    }
}

/// A text without `/` is its own single segment.
proof fn lemma_split_single(part: Seq<char>)
    requires
        !part.contains('/'),
    ensures
        split(part) == seq![part],
    decreases part.len(),
{
    if part.len() == 0 {
        assert(part == Seq::<char>::empty());
    } else {
        let front = part.drop_last();
        assert forall|k: int| 0 <= k < front.len() implies front[k] != '/' by {
            assert(part[k] == front[k]);
        }
        lemma_split_single(front);
        assert(part[part.len() - 1] != '/');
        assert(front.push(part.last()) == part);
        assert(seq![front].drop_last() == Seq::<Seq<char>>::empty());
        assert(Seq::<Seq<char>>::empty().push(part) == seq![part]);
    }
}

/// A segment written behind a path and a `/` is one more segment.
proof fn lemma_split_append(path: Seq<char>, part: Seq<char>)
    requires
        !part.contains('/'),
    ensures
        split(path + slash() + part) == split(path).push(part),
    decreases part.len(),
{
    let whole = path + slash() + part;
    if part.len() == 0 {
        assert(whole.drop_last() == path);
        assert(part == Seq::<char>::empty());
    } else {
        let front = part.drop_last();
        assert forall|k: int| 0 <= k < front.len() implies front[k] != '/' by {
            assert(part[k] == front[k]);
        }
        lemma_split_append(path, front);
        assert(part[part.len() - 1] != '/');
        assert(whole.drop_last() == path + slash() + front);
        assert(whole.last() == part.last());
        assert(split(path).push(front).drop_last() == split(path));
        assert(front.push(part.last()) == part);
    }
}

/// Joining loses nothing either: components without `/`, joined by `/`, are
/// the segments of what comes out.
pub proof fn lemma_split_of_joined(parts: Seq<Seq<char>>)
    requires
        parts.len() > 0,
        forall|i: int| 0 <= i < parts.len() ==> !(#[trigger] parts[i]).contains('/'),
    ensures
        split(joined(parts, slash())) == parts,
    decreases parts.len(),
{
    if parts.len() == 1 {
        lemma_split_single(parts[0]);
        assert(seq![parts[0]] == parts);
    } else {
        let front = parts.drop_last();
        assert forall|i: int| 0 <= i < front.len() implies !(#[trigger] front[i]).contains(
            '/',
        ) by {
            assert(front[i] == parts[i]);
        }
        lemma_split_of_joined(front);
        lemma_split_append(joined(front, slash()), parts.last());
        assert(front.push(parts.last()) == parts);
    }
}

/// Filtering keeps a list whose every element names something.
proof fn lemma_names_kept(parts: Seq<Seq<char>>)
    requires
        forall|i: int| 0 <= i < parts.len() ==> is_name(#[trigger] parts[i]),
    ensures
        names(parts) == parts,
    decreases parts.len(),
{
    reveal(Seq::filter);
    if parts.len() > 0 {
        let front = parts.drop_last();
        assert forall|i: int| 0 <= i < front.len() implies is_name(#[trigger] front[i]) by {
            assert(front[i] == parts[i]);
        }
        lemma_names_kept(front);
        assert(is_name(parts[parts.len() - 1]));
        assert(front.push(parts.last()) == parts);
    }
}

/// What filtering keeps of a list of segments names something and holds no `/`.
proof fn lemma_names_of_segments(segments: Seq<Seq<char>>)
    requires
        forall|i: int| 0 <= i < segments.len() ==> !(#[trigger] segments[i]).contains('/'),
    ensures
        forall|i: int|
            0 <= i < names(segments).len() ==> {
                &&& is_name(#[trigger] names(segments)[i])
                &&& !names(segments)[i].contains('/')
            },
    decreases segments.len(),
{
    reveal(Seq::filter);
    if segments.len() > 0 {
        let front = segments.drop_last();
        assert forall|i: int| 0 <= i < front.len() implies !(#[trigger] front[i]).contains(
            '/',
        ) by {
            assert(front[i] == segments[i]);
        }
        lemma_names_of_segments(front);
        let last = segments[segments.len() - 1];
        assert(!last.contains('/'));
        assert(segments == front.push(last));
        lemma_names_push(front, last);
        assert forall|i: int| 0 <= i < names(segments).len() implies is_name(
            #[trigger] names(segments)[i],
        ) && !names(segments)[i].contains('/') by {
            if i < names(front).len() {
                assert(names(segments)[i] == names(front)[i]);
            }
        }
    }
}

/// The components of any path name something and hold no `/`.
pub proof fn lemma_components_are_names(path: Seq<char>)
    ensures
        forall|i: int|
            0 <= i < components(path).len() ==> {
                &&& is_name(#[trigger] components(path)[i])
                &&& !components(path)[i].contains('/')
            },
{
    lemma_split_joins_back(path);
    lemma_names_of_segments(split(path));
}

/// The walk leaves a canonical list: whatever goes in, `..` is left only at
/// the front of what comes out.
pub proof fn lemma_walk_is_canonical(input: Seq<Seq<char>>)
    requires
        forall|i: int| 0 <= i < input.len() ==> is_name(#[trigger] input[i]),
        forall|i: int| 0 <= i < input.len() ==> !(#[trigger] input[i]).contains('/'),
    ensures
        canonical(walk(input)),
    decreases input.len(),
{
    if input.len() > 0 {
        let front = input.drop_last();
        assert forall|i: int| 0 <= i < front.len() implies is_name(#[trigger] front[i]) && !front[i].contains('/') by {
            assert(front[i] == input[i]);
        }
        lemma_walk_is_canonical(front);
        let before = walk(front);
        let last = input[input.len() - 1];
        assert(is_name(last) && !last.contains('/'));
        let after = step(before, last);
        if last == up() && before.len() > 0 && before.last() != up() {
            assert forall|i: int| 0 <= i < after.len() implies is_name(#[trigger] after[i]) && !after[i].contains('/') by {
                assert(after[i] == before[i]);
            }
            assert forall|i: int, j: int|
                0 <= i < j < after.len() && #[trigger] after[j] == up() implies #[trigger] after[i] == up() by {
                assert(after[i] == before[i] && after[j] == before[j]);
            }
        } else {
            assert forall|i: int| 0 <= i < after.len() implies is_name(#[trigger] after[i]) && !after[i].contains('/') by {
                if i < before.len() {
                    assert(after[i] == before[i]);
                }
            }
            assert forall|i: int, j: int|
                0 <= i < j < after.len() && #[trigger] after[j] == up() implies #[trigger] after[i] == up() by {
                if j < before.len() {
                    assert(after[i] == before[i] && after[j] == before[j]);
                } else {
                    // `..` was appended: the list was empty or ended in `..`
                    assert(last == up());
                    assert(before.len() > 0);
                    assert(before[before.len() - 1] == up());
                    assert(after[i] == before[i]);
                    if i < before.len() - 1 {
                        assert(before[i] == up());
                    }
                }
            }
        }
    }
}

/// The walk changes nothing in a list that is canonical already.
pub proof fn lemma_walk_keeps_canonical(parts: Seq<Seq<char>>)
    requires
        canonical(parts),
    ensures
        walk(parts) == parts,
    decreases parts.len(),
{
    if parts.len() > 0 {
        let front = parts.drop_last();
        assert(canonical(front)) by {
            assert forall|i: int| 0 <= i < front.len() implies is_name(#[trigger] front[i]) && !front[i].contains('/') by {
                assert(front[i] == parts[i]);
            }
            assert forall|i: int, j: int|
                0 <= i < j < front.len() && #[trigger] front[j] == up() implies #[trigger] front[i] == up() by {
                assert(front[i] == parts[i] && front[j] == parts[j]);
            }
        }
        lemma_walk_keeps_canonical(front);
        let last = parts[parts.len() - 1];
        if last == up() && front.len() > 0 {
            assert(parts[parts.len() - 2] == up());
            assert(front.last() == parts[parts.len() - 2]);
        }
        assert(front.push(last) == parts);
    }
}

/// Walking twice is walking once.
pub proof fn lemma_walk_idempotent(input: Seq<Seq<char>>)
    requires
        forall|i: int| 0 <= i < input.len() ==> is_name(#[trigger] input[i]),
        forall|i: int| 0 <= i < input.len() ==> !(#[trigger] input[i]).contains('/'),
    ensures
        walk(walk(input)) == walk(input),
{
    lemma_walk_is_canonical(input);
    lemma_walk_keeps_canonical(walk(input));
}

/// The list that a relative specifier resolves to is canonical, and the name
/// returned for it has exactly that list as its components: in a resolved
/// name `..` stands only at the front, so the name leaves the directory it
/// starts in at most through its leading `..`.
pub proof fn lemma_resolved_is_canonical(base: Seq<char>, specifier: Seq<char>)
    requires
        is_relative(specifier),
    ensures
        canonical(resolved(base, specifier)),
        components(normalized(base, specifier)) == resolved(base, specifier),
{
    let input = parent(base) + components(specifier);
    lemma_components_are_names(base);
    lemma_components_are_names(specifier);
    assert forall|i: int| 0 <= i < input.len() implies is_name(#[trigger] input[i]) && !input[i].contains('/') by {
        if i < parent(base).len() {
            assert(input[i] == components(base)[i]);
        } else {
            assert(input[i] == components(specifier)[i - parent(base).len()]);
        }
    }
    lemma_walk_is_canonical(input);
    let parts = resolved(base, specifier);
    if parts.len() == 0 {
        reveal(Seq::filter);
        assert(joined(parts, slash()) == Seq::<char>::empty());
        assert(split(Seq::<char>::empty()) == seq![Seq::<char>::empty()]);
        assert(seq![Seq::<char>::empty()].drop_last() == Seq::<Seq<char>>::empty());
        lemma_names_push(Seq::empty(), Seq::empty());
        assert(seq![Seq::<char>::empty()] == Seq::<Seq<char>>::empty().push(Seq::empty()));
        assert(names(Seq::<Seq<char>>::empty()) == Seq::<Seq<char>>::empty());
        assert(components(Seq::<char>::empty()) == Seq::<Seq<char>>::empty());
    } else {
        lemma_split_of_joined(parts);
        lemma_names_kept(parts);
    }
}

/// A resolved name that does not itself begin with `./` or `../` stays as it
/// is when it is resolved again, in whatever module.
pub proof fn lemma_normalized_is_idempotent(base: Seq<char>, specifier: Seq<char>)
    requires
        !is_relative(normalized(base, specifier)),
    ensures
        normalized(base, normalized(base, specifier)) == normalized(base, specifier),
{
}

/// A resolved name never begins with `./`: it is relative only where it
/// begins with `../`.
pub proof fn lemma_resolved_begins(base: Seq<char>, specifier: Seq<char>)
    requires
        is_relative(specifier),
    ensures
        is_relative(normalized(base, specifier)) <==> (resolved(base, specifier).len() > 1
            && resolved(base, specifier)[0] == up()),
{
    lemma_resolved_is_canonical(base, specifier);
    let parts = resolved(base, specifier);
    let name = normalized(base, specifier);
    if parts.len() == 0 {
        assert(name.len() == 0);
    } else {
        lemma_joined_begins(parts);
        let first = parts[0];
        assert(is_name(first));
        assert(!first.contains('/'));
        if parts.len() == 1 {
            assert(name == first);
            if is_relative(name) {
                if name[1] == '/' {
                    assert(first[1] == '/');
                } else {
                    assert(first[2] == '/');
                }
            }
        } else {
            assert(name.take(first.len() as int + 1) == first.push('/'));
            assert(forall|k: int| 0 <= k < first.len() ==> name[k] == name.take(first.len() as int + 1)[k]);
            assert(name[first.len() as int] == name.take(first.len() as int + 1)[first.len() as int]);
            if first == up() {
                assert(name[0] == '.' && name[1] == '.' && name[2] == '/');
            }
            if is_relative(name) {
                if name[0] == '.' && name[1] == '/' {
                    if first.len() == 1 {
                        assert(first[0] == name[0]);
                        assert(first == here());
                    } else {
                        assert(first[1] == name[1]);
                    }
                    assert(false);
                } else {
                    if first.len() == 2 {
                        assert(first[0] == name[0] && first[1] == name[1]);
                        assert(first == up());
                    } else if first.len() == 1 {
                        assert(name[1] == '/');
                        assert(false);
                    } else {
                        assert(first[2] == name[2]);
                        assert(false);
                    }
                }
            }
        }
    }
}

/// What is joined begins with its first part and, where more parts follow,
/// a `/` behind it.
proof fn lemma_joined_begins(parts: Seq<Seq<char>>)
    requires
        parts.len() > 0,
    ensures
        parts.len() == 1 ==> joined(parts, slash()) == parts[0],
        parts.len() > 1 ==> joined(parts, slash()).len() > parts[0].len() && joined(
            parts,
            slash(),
        ).take(parts[0].len() as int + 1) == parts[0].push('/'),
    decreases parts.len(),
{
    if parts.len() > 1 {
        let front = parts.drop_last();
        lemma_joined_begins(front);
        let whole = joined(parts, slash());
        assert(whole == joined(front, slash()) + slash() + parts.last());
        assert(front[0] == parts[0]);
        if front.len() == 1 {
            assert(whole.take(parts[0].len() as int + 1) == parts[0].push('/'));
        } else {
            assert(whole.take(parts[0].len() as int + 1) == joined(front, slash()).take(
                parts[0].len() as int + 1,
            ));
        }
    }
}

/// The segments of two paths with a `/` between them are the segments of
/// the one followed by those of the other.
proof fn lemma_split_concat(front: Seq<char>, back: Seq<char>)
    ensures
        split(front + slash() + back) == split(front) + split(back),
    decreases back.len(),
{
    let whole = front + slash() + back;
    lemma_split_nonempty(back);
    if back.len() == 0 {
        assert(whole.drop_last() == front);
        assert(split(front).push(Seq::empty()) == split(front) + split(back));
    } else {
        let shorter = back.drop_last();
        lemma_split_concat(front, shorter);
        lemma_split_nonempty(shorter);
        assert(whole.drop_last() == front + slash() + shorter);
        assert(whole.last() == back.last());
        let before = split(front) + split(shorter);
        if back.last() == '/' {
            assert(before.push(Seq::empty()) == split(front) + split(shorter).push(Seq::empty()));
        } else {
            assert(before.last() == split(shorter).last());
            assert(before.drop_last() == split(front) + split(shorter).drop_last());
            assert(before.drop_last().push(before.last().push(back.last())) == split(front)
                + split(shorter).drop_last().push(split(shorter).last().push(back.last())));
        }
    }
}

/// Filtering two lists one after the other is filtering each.
proof fn lemma_names_concat(front: Seq<Seq<char>>, back: Seq<Seq<char>>)
    ensures
        names(front + back) == names(front) + names(back),
    decreases back.len(),
{
    if back.len() == 0 {
        reveal(Seq::filter);
        assert(front + back == front);
        assert(names(back) == Seq::<Seq<char>>::empty());
    } else {
        let shorter = back.drop_last();
        lemma_names_concat(front, shorter);
        assert(front + back == (front + shorter).push(back.last()));
        assert(back == shorter.push(back.last()));
        lemma_names_push(front + shorter, back.last());
        lemma_names_push(shorter, back.last());
    }
}

/// A resolved name is a fixed point: written behind `./` in a module at the
/// top of the tree, it resolves to itself, whether or not it begins with
/// `..`.
pub proof fn lemma_resolved_name_is_fixed(base: Seq<char>, specifier: Seq<char>, top: Seq<char>)
    requires
        is_relative(specifier),
        components(top).len() <= 1,
    ensures
        normalized(top, seq!['.', '/'] + normalized(base, specifier)) == normalized(
            base,
            specifier,
        ),
{
    let name = normalized(base, specifier);
    let again = seq!['.', '/'] + name;
    lemma_resolved_is_canonical(base, specifier);
    assert(again == here() + slash() + name);
    lemma_split_concat(here(), name);
    lemma_split_single(here());
    lemma_names_concat(seq![here()], split(name));
    assert(names(seq![here()]) == Seq::<Seq<char>>::empty()) by {
        reveal(Seq::filter);
        lemma_names_push(Seq::empty(), here());
        assert(seq![here()] == Seq::<Seq<char>>::empty().push(here()));
        assert(names(Seq::<Seq<char>>::empty()) == Seq::<Seq<char>>::empty());
    }
    assert(components(again) == components(name));
    assert(parent(top) == Seq::<Seq<char>>::empty());
    assert(parent(top) + components(again) == resolved(base, specifier));
    lemma_walk_keeps_canonical(resolved(base, specifier));
    assert(again[0] == '.' && again[1] == '/');
}

/// The root names nothing: a path has the components that it has without
/// the `/` in front of it.
pub proof fn lemma_root_is_left_out(path: Seq<char>)
    ensures
        components(slash() + path) == components(path),
{
    let nothing = Seq::<char>::empty();
    lemma_split_concat(nothing, path);
    assert(nothing + slash() + path == slash() + path);
    assert(split(nothing) == seq![nothing]);
    lemma_names_concat(seq![nothing], split(path));
    assert(names(seq![nothing]) == Seq::<Seq<char>>::empty()) by {
        reveal(Seq::filter);
        lemma_names_push(Seq::empty(), nothing);
        assert(seq![nothing] == Seq::<Seq<char>>::empty().push(nothing));
        assert(names(Seq::<Seq<char>>::empty()) == Seq::<Seq<char>>::empty());
    }
}

} // verus!
