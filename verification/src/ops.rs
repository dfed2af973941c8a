//! The operations that do more than ask the platform one question:
//! picking a component by a signed index, and joining a list of paths.

use vstd::prelude::*;
use crate::index::{effective_index, normalize_index};
use crate::platform;
use crate::platform::{has_separator, is_path_separator, joined, path_components};

verus! {

/// The component that the signed index `n` addresses among `components`:
/// none of an empty sequence, else the one at the effective index.
pub open spec fn component_at(components: Seq<Seq<char>>, n: int) -> Option<Seq<char>> {
    if components.len() == 0 {
        None
    } else {
        Some(components[effective_index(n, components.len() as int)])
    }
}

/// The paths of a non-empty list joined from left to right: the first path
/// alone, or what is joined of all but the last with the last adjoined.
pub open spec fn fold_joined(paths: Seq<Seq<char>>) -> Seq<char>
    recommends
        paths.len() > 0,
    decreases paths.len(),
{
    if paths.len() <= 1 {
        paths[0]
    } else {
        joined(fold_joined(paths.drop_last()), paths.last())
    }
}

/// The join of a list of paths: none of an empty list.
pub open spec fn join_all(paths: Seq<Seq<char>>) -> Option<Seq<char>> {
    if paths.len() == 0 {
        None
    } else {
        Some(fold_joined(paths))
    }
}

/// Picks the component that `n` addresses from the components of a path.
/// Fails exactly on an empty sequence; otherwise `n` wraps around its
/// length, so that `-1` is the last component.
pub fn select_component(components: &Vec<String>, n: i32) -> (part: Option<String>)
    ensures
        part.deep_view() == component_at(components.deep_view(), n as int),
{
    if components.len() == 0 {
        None
    } else {
        let position = normalize_index(n, components.len());
        Some(components[position].clone())
    }
}

/// The component of `path` that `n` addresses, a root marker counting as a
/// component of its own.
pub fn component(path: &str, n: i32) -> (part: Option<String>)
    ensures
        part.deep_view() == component_at(path_components(path@), n as int),
{
    let components = platform::components(path);
    select_component(&components, n)
}

/// Joins `paths` from left to right. Fails exactly on an empty list; a
/// single path comes back unchanged.
pub fn join(paths: &Vec<String>) -> (path: Option<String>)
    ensures
        path.deep_view() == join_all(paths.deep_view()),
{
    if paths.len() == 0 {
        return None;
    }
    let ghost all = paths.deep_view();
    let mut path: String = paths[0].clone();
    let mut next: usize = 1;
    while next < paths.len()
        invariant
            all == paths.deep_view(),
            1 <= next <= paths.len(),
            path@ == fold_joined(all.take(next as int)),
        decreases paths.len() - next,
    {
        let ghost upto = all.take(next + 1);
        assert(upto.drop_last() == all.take(next as int));
        path = platform::join(path.as_str(), paths[next].as_str());
        next += 1;
    }
    assert(all.take(next as int) == all);
    Some(path)
}

/// Whether `text` holds a path separator, which no extension may.
pub fn contains_separator(text: &str) -> (found: bool)
    ensures
        found == has_separator(text@),
{
    let mut found = false;
    for c in chars: text.chars()
        invariant
            chars.seq() == text@,
            found <==> exists|i: int|
                0 <= i < chars.index() && is_path_separator(#[trigger] text@[i]),
    {
        if platform::is_separator(c) {
            found = true;
        }
    }
    found
}

} // verus!
