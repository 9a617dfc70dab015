//! The repository of a workspace, as its git configuration names it.

use crate::util::text::{
    optional_view, replace_first, replaced_first, split_at_first, split_once, starts_with,
    strip_prefix, strip_suffix, texts_view, trim, trimmed, without_prefix, without_suffix,
};
use vstd::prelude::*;
use vstd::string::*;

verus! {

/// The remote that a line of a git configuration states, where it states one.
pub open spec fn remote_of(line: Seq<char>) -> Option<Seq<char>> {
    strip_prefix(trim(line), "url = "@)
}

/// `text` without `.git` at its end.
pub open spec fn without_git_suffix(text: Seq<char>) -> Option<Seq<char>> {
    strip_suffix(text, ".git"@)
}

/// The web address of the repository that the remote `url` names.
///
/// A remote that starts with `http` is that address, but for a `.git` at its
/// end. Of any other remote only what follows the first `@` counts: with its
/// first `:` turned into `/` and `.git` taken off its end, where it ends so,
/// and else as it stands.
pub open spec fn remote_repository(url: Seq<char>) -> Option<Seq<char>> {
    if "http"@.is_prefix_of(url) {
        Some(
            match without_git_suffix(url) {
                Some(base) => base,
                None => url,
            },
        )
    } else {
        match split_once(url, '@') {
            Some((_, host)) => Some(
                "https://"@ + match without_git_suffix(replace_first(host, ':', "/"@)) {
                    Some(base) => base,
                    None => host,
                },
            ),
            None => None,
        }
    }
}

/// The repository that the lines of a git configuration name: the one of the
/// first line that states a remote.
pub open spec fn git_repository(lines: Seq<Seq<char>>) -> Option<Seq<char>>
    decreases lines.len(),
{
    if lines.len() == 0 {
        None
    } else {
        match remote_of(lines[0]) {
            Some(url) => remote_repository(url),
            None => git_repository(lines.drop_first()),
        }
    }
}

/// Where the git configuration of the workspace at `workspace` is kept.
pub open spec fn git_config_path_of(workspace: Seq<char>) -> Seq<char> {
    workspace + "/"@ + ".git/config"@
}

/// Where the git configuration of the workspace at `workspace` is kept.
pub fn git_config_path(workspace: &str) -> (path: String)
    ensures
        path@ == git_config_path_of(workspace@),
{
    let mut path = workspace.to_owned();
    path.append("/");
    path.append(".git/config");
    path
}

/// The web address of the repository that the remote `url` names.
fn repository_of_remote(url: &str) -> (repository: Option<String>)
    ensures
        optional_view(repository) == remote_repository(url@),
{
    if starts_with(url, "http") {
        match without_suffix(url, ".git") {
            Some(base) => Some(base.to_owned()),
            None => Some(url.to_owned()),
        }
    } else {
        match split_at_first(url, '@') {
            Some((_, host)) => {
                let path = replaced_first(host, ':', "/");
                let mut repository = "https://".to_owned();
                match without_suffix(path.as_str(), ".git") {
                    Some(base) => repository.append(base),
                    None => repository.append(host),
                }
                Some(repository)
            },
            None => None,
        }
    }
}

/// The web address of the repository that a git configuration names, given
/// the lines of the configuration in order.
///
/// The first line that reads `url = ...`, white space around it aside,
/// decides: no later line is looked at.
pub fn find_git_repository(lines: &Vec<String>) -> (repository: Option<String>)
    ensures
        optional_view(repository) == git_repository(texts_view(lines@)),
{
    let ghost all = texts_view(lines@);
    let mut i: usize = 0;
    assert(all.skip(0) == all);
    while i < lines.len()
        invariant
            all == texts_view(lines@),
            i <= lines@.len(),
            git_repository(all) == git_repository(all.skip(i as int)),
        decreases lines.len() - i,
    {
        assert(all.skip(i as int).drop_first() == all.skip(i + 1));
        match without_prefix(trimmed(lines[i].as_str()), "url = ") {
            Some(url) => {
                return repository_of_remote(url);
            },
            None => {},
        }
        i += 1;
    }
    None
}

} // verus!
