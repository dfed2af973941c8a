//! What holds of the operations whatever their arguments are.

use vstd::prelude::*;
use crate::command::{planned_step, Command, OutcomeView, StepView};
use crate::index::lemma_effective_index_cyclic;
use crate::ops::{component_at, join_all};
use crate::platform::{
    joined,
    name_extension,
    name_stem,
    path_file_name,
    path_is_absolute,
    path_parent,
    with_extension_of,
    with_file_name_of,
};

verus! {

/// Picking a component is cyclic: an index shifted by the number of
/// components, up or down, picks the same component.
pub proof fn lemma_component_cyclic(components: Seq<Seq<char>>, n: int)
    requires
        components.len() > 0,
    ensures
        component_at(components, n + components.len()) == component_at(components, n),
        component_at(components, n - components.len()) == component_at(components, n),
{
    lemma_effective_index_cyclic(n, components.len() as int);
}

/// Picking a component fails for every index where there are no
/// components, and only there.
pub proof fn lemma_component_fails_iff_empty(components: Seq<Seq<char>>, n: int)
    ensures
        component_at(components, n) is None <==> components.len() == 0,
{
}

/// Joining fails on the empty list, and only on it.
pub proof fn lemma_join_fails_iff_empty(paths: Seq<Seq<char>>)
    ensures
        join_all(paths) is None <==> paths.len() == 0,
{
}

/// Joining a single path gives that path unchanged.
pub proof fn lemma_join_single(path: Seq<char>)
    ensures
        join_all(seq![path]) == Some(path),
{
}

/// Joining a path with an absolute one gives the absolute one unchanged.
pub proof fn lemma_join_absolute_override(base: Seq<char>, other: Seq<char>)
    requires
        path_is_absolute(other),
    ensures
        join_all(seq![base, other]) == Some(other),
{
}

/// An absolute path in a list discards all that stands before it: joining
/// the list gives what joining from that path on gives.
pub proof fn lemma_join_restarts_at_absolute(paths: Seq<Seq<char>>, at: int)
    requires
        0 <= at < paths.len(),
        path_is_absolute(paths[at]),
    ensures
        join_all(paths) == join_all(paths.skip(at)),
    decreases paths.len(),
{
    if at < paths.len() - 1 {
        lemma_join_restarts_at_absolute(paths.drop_last(), at);
        assert(paths.skip(at).drop_last() == paths.drop_last().skip(at));
    }
}

/// A file name with an extension is its stem, a `.` and the extension, and
/// the extension holds no `.`; a file name without one is its own stem.
pub proof fn lemma_stem_and_extension_split_name(name: Seq<char>)
    ensures
        match name_extension(name) {
            Some(extension) => {
                &&& name == name_stem(name) + seq!['.'] + extension
                &&& name_stem(name).len() > 0
                &&& !extension.contains('.')
            },
            None => name_stem(name) == name,
        },
{
    name.index_of_last_ensures('.');
}

/// Replacing the suffix or the file name of a path never fails: a command
/// to do so that can be carried out is answered at once, with a line.
pub proof fn lemma_replacing_never_fails(command: Command)
    requires
        command is WithSuffix || command is WithFileName,
        command.runnable(),
    ensures
        planned_step(command) matches StepView::Done(OutcomeView::Line(_)),
{
}

/// A path without a file name keeps its text whatever suffix it is given,
/// so giving it the same suffix twice is the same as once.
pub proof fn lemma_with_suffix_without_file_name(path: Seq<char>, suffix: Seq<char>)
    requires
        path_file_name(path) is None,
    ensures
        with_extension_of(path, suffix) == path,
        with_extension_of(with_extension_of(path, suffix), suffix) == with_extension_of(
            path,
            suffix,
        ),
{
}

/// An absolute file name replaces the whole path, so giving a path the
/// same absolute file name twice is the same as once.
pub proof fn lemma_with_absolute_file_name(path: Seq<char>, name: Seq<char>)
    requires
        path_is_absolute(name),
    ensures
        with_file_name_of(path, name) == name,
        with_file_name_of(with_file_name_of(path, name), name) == with_file_name_of(path, name),
{
}

/// Adjoining a name to the parent of a path that has a file name is the
/// same as replacing that file name by the name.
pub proof fn lemma_join_parent_is_with_file_name(path: Seq<char>, name: Seq<char>)
    requires
        path_file_name(path) is Some,
        path_parent(path) is Some,
    ensures
        joined(path_parent(path)->0, name) == with_file_name_of(path, name),
{
}

} // verus!
