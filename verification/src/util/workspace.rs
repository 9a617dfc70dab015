//! The directories in which the root of a workspace is looked for, and the
//! one among them that is the root.

use crate::util::path::{join, joined, parent_of, path_parent};
use crate::util::text::{optional_view, same_text, texts_view};
use vstd::prelude::*;
use vstd::string::*;

verus! {

/// The names of the directories that mark the root of a workspace.
pub open spec fn vcs_markers() -> Seq<Seq<char>> {
    seq![".git"@, ".svn"@, ".hg"@]
}

/// The directory in which the search goes on after `current`, `parent` being
/// the directory above `current` where there is one: `parent`, as long as it
/// is shorter than `current`.
pub open spec fn climbed(current: Seq<char>, parent: Option<Seq<char>>) -> Option<Seq<char>> {
    match parent {
        Some(above) if above.len() < current.len() => Some(above),
        _ => None,
    }
}

/// The directories in which the root of a workspace is looked for: `path`
/// itself, then the directory above it, and so on upwards, nearest first. The
/// list is empty for an empty path, and ends with the directory that has none
/// above it.
pub open spec fn candidates(path: Seq<char>) -> Seq<Seq<char>>
    decreases path.len(),
{
    if path.len() == 0 {
        seq![]
    } else {
        seq![path] + match climbed(path, path_parent(path)) {
            Some(above) => candidates(above),
            None => seq![],
        }
    }
}

/// The paths at which `dir` would hold a marker, one for each marker.
pub open spec fn markers_in(dir: Seq<char>) -> Seq<Seq<char>> {
    vcs_markers().map_values(|marker: Seq<char>| joined(dir, marker))
}

/// Whether `dir` holds a marker, `existing` being the marker directories that
/// exist.
pub open spec fn is_marked(dir: Seq<char>, existing: Seq<Seq<char>>) -> bool {
    exists|k: int| 0 <= k < 3 && existing.contains(#[trigger] markers_in(dir)[k])
}

/// The first of `dirs` that holds a marker.
pub open spec fn nearest_marked(dirs: Seq<Seq<char>>, existing: Seq<Seq<char>>) -> Option<
    Seq<char>,
>
    decreases dirs.len(),
{
    if dirs.len() == 0 {
        None
    } else if is_marked(dirs[0], existing) {
        Some(dirs[0])
    } else {
        nearest_marked(dirs.drop_first(), existing)
    }
}

/// The root of the workspace that `path` lies in: the nearest of its
/// candidates that holds a marker, and `path` itself where none does.
pub open spec fn workspace_of(path: Seq<char>, existing: Seq<Seq<char>>) -> Seq<char> {
    match nearest_marked(candidates(path), existing) {
        Some(dir) => dir,
        None => path,
    }
}

/// The directory in which the search goes on after `current`, `parent` being
/// the directory above `current` where there is one. The search goes upwards
/// only: a `parent` that is not shorter than `current` ends it.
pub fn climb(current: &str, parent: Option<String>) -> (above: Option<String>)
    ensures
        optional_view(above) == climbed(current@, optional_view(parent)),
{
    match parent {
        Some(above) => {
            if above.as_str().unicode_len() < current.unicode_len() {
                Some(above)
            } else {
                None
            }
        },
        None => None,
    }
}

/// The directories in which the root of a workspace is looked for, nearest
/// first: `initial_path`, then each directory above it.
pub fn workspace_candidates(initial_path: &str) -> (dirs: Vec<String>)
    ensures
        texts_view(dirs@) == candidates(initial_path@),
{
    let mut dirs: Vec<String> = Vec::new();
    if initial_path.is_empty() {
        return dirs;
    }
    let mut current: String = initial_path.to_owned();
    loop
        invariant
            current@.len() > 0,
            texts_view(dirs@) + candidates(current@) == candidates(initial_path@),
        decreases current@.len(),
    {
        let above = climb(current.as_str(), parent_of(current.as_str()));
        dirs.push(current);
        match above {
            Some(parent) => {
                if parent.as_str().is_empty() {
                    assert(texts_view(dirs@) + candidates(parent@) == texts_view(dirs@));
                    return dirs;
                }
                current = parent;
            },
            None => {
                return dirs;
            },
        }
    }
}

/// The paths at which the directory `dir` would hold a marker: `.git`, `.svn`
/// and `.hg` inside it.
pub fn marker_paths(dir: &str) -> (paths: Vec<String>)
    ensures
        texts_view(paths@) == markers_in(dir@),
{
    let mut paths: Vec<String> = Vec::with_capacity(3);
    paths.push(join(dir, ".git"));
    paths.push(join(dir, ".svn"));
    paths.push(join(dir, ".hg"));
    paths
}

/// Whether `path` is one of `existing`.
fn is_among(path: &str, existing: &Vec<String>) -> (found: bool)
    ensures
        found == texts_view(existing@).contains(path@),
{
    let mut i: usize = 0;
    while i < existing.len()
        invariant
            i <= existing@.len(),
            forall|j: int| 0 <= j < i ==> texts_view(existing@)[j] != path@,
        decreases existing.len() - i,
    {
        if same_text(existing[i].as_str(), path) {
            assert(texts_view(existing@)[i as int] == path@);
            return true;
        }
        i += 1;
    }
    false
}

/// Whether the directory `dir` holds a marker, `existing` being the marker
/// directories that exist.
fn holds_marker(dir: &str, existing: &Vec<String>) -> (marked: bool)
    ensures
        marked == is_marked(dir@, texts_view(existing@)),
{
    let paths = marker_paths(dir);
    let mut k: usize = 0;
    while k < 3
        invariant
            k <= 3,
            texts_view(paths@) == markers_in(dir@),
            forall|j: int| 0 <= j < k ==> !texts_view(existing@).contains(markers_in(dir@)[j]),
        decreases 3 - k,
    {
        assert(paths@.len() == 3) by {
            assert(texts_view(paths@).len() == 3);
        }
        assert(texts_view(paths@)[k as int] == paths@[k as int]@);
        if is_among(paths[k].as_str(), existing) {
            return true;
        }
        k += 1;
    }
    false
}

/// The first of the directories `dirs` that holds a marker, `existing` being
/// the marker directories that exist.
pub fn nearest_workspace(dirs: &Vec<String>, existing: &Vec<String>) -> (workspace: Option<String>)
    ensures
        optional_view(workspace) == nearest_marked(texts_view(dirs@), texts_view(existing@)),
{
    let ghost all = texts_view(dirs@);
    let ghost marks = texts_view(existing@);
    let mut i: usize = 0;
    assert(all.skip(0) == all);
    while i < dirs.len()
        invariant
            all == texts_view(dirs@),
            marks == texts_view(existing@),
            i <= dirs@.len(),
            nearest_marked(all, marks) == nearest_marked(all.skip(i as int), marks),
        decreases dirs.len() - i,
    {
        assert(all.skip(i as int).drop_first() == all.skip(i + 1));
        if holds_marker(dirs[i].as_str(), existing) {
            return Some(dirs[i].clone());
        }
        i += 1;
    }
    None
}

} // verus!
