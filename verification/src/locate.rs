//! Where the daemon's configuration is looked for.
//!
//! The places are tried in a fixed order: the user's configuration
//! directory, two places in the user's home directory, and one place for
//! the whole system. The first place that holds a file is taken.

use vstd::prelude::*;
use crate::error::{Error, ErrorView};

verus! {

/// The user's configuration directory, as `dirs::config_dir` gives it. It
/// depends on the environment of the process, so nothing is claimed of it.
/// A path that is not valid UTF-8 has each offending part replaced by
/// U+FFFD.
#[verifier::external_body]
fn user_config_dir() -> Option<String> {
    match dirs::config_dir() {
        Some(path) => Some(path.to_string_lossy().into_owned()),
        None => None,
    }
}

/// The user's home directory, as `dirs::home_dir` gives it. It depends on
/// the environment of the process, so nothing is claimed of it. A path that
/// is not valid UTF-8 has each offending part replaced by U+FFFD.
#[verifier::external_body]
fn user_home_dir() -> Option<String> {
    match dirs::home_dir() {
        Some(path) => Some(path.to_string_lossy().into_owned()),
        None => None,
    }
}

/// The path of `name` in the directory `base`, where `name` is relative:
/// the two are parted by one `/`, which is left out where `base` is empty
/// or ends in one already.
pub open spec fn joined(base: Seq<char>, name: Seq<char>) -> Seq<char> {
    if base.len() > 0 && base.last() != '/' {
        base + seq!['/'] + name
    } else {
        base + name
    }
}

/// The places where the configuration may lie, in the order in which they
/// are tried, given the user's configuration directory and home directory
/// as far as they are known.
pub open spec fn candidates_of(
    config_dir: Option<Seq<char>>,
    home_dir: Option<Seq<char>>,
) -> Seq<Seq<char>> {
    let in_config: Seq<Seq<char>> = match config_dir {
        Some(dir) => seq![joined(joined(dir, "mpd"@), "mpd.conf"@)],
        None => seq![],
    };
    let in_home: Seq<Seq<char>> = match home_dir {
        Some(dir) => seq![joined(dir, ".mpdconf"@), joined(joined(dir, ".mpd"@), "mpd.conf"@)],
        None => seq![],
    };
    in_config + in_home + seq!["/etc/mpd.conf"@]
}

/// The texts of `paths`.
pub open spec fn texts(paths: Seq<String>) -> Seq<Seq<char>> {
    Seq::new(paths.len(), |i: int| paths[i]@)
}

/// A directory, or none, as a sequence of characters.
pub open spec fn dir_view(dir: Option<&str>) -> Option<Seq<char>> {
    match dir {
        Some(path) => Some(path@),
        None => None,
    }
}

/// Whether `at` is the place to take among `count` places: the first one
/// that was found to hold a file. `present[i]` tells whether place `i`
/// does; a place that `present` does not reach was not looked at.
pub open spec fn is_first_present(present: Seq<bool>, count: nat, at: int) -> bool {
    &&& 0 <= at < present.len()
    &&& at < count
    &&& present[at]
    &&& forall|i: int| 0 <= i < at ==> !present[i]
}

/// Makes the path of `name` in the directory `base`.
pub fn join(base: &str, name: &str) -> (path: String)
    ensures
        path@ == joined(base@, name@),
{
    let mut path = String::from_str(base);
    let len = base.unicode_len();
    if len > 0 && base.get_char(len - 1) != '/' {
        path.push('/');
    }
    path.append(name);
    path
}

/// Lists the places where the configuration may lie, in the order in which
/// they are to be tried.
pub fn config_candidates(config_dir: Option<&str>, home_dir: Option<&str>) -> (paths: Vec<String>)
    ensures
        texts(paths@) == candidates_of(dir_view(config_dir), dir_view(home_dir)),
{
    let mut paths: Vec<String> = Vec::new();
    if let Some(dir) = config_dir {
        paths.push(join(join(dir, "mpd").as_str(), "mpd.conf"));
    }
    if let Some(dir) = home_dir {
        paths.push(join(dir, ".mpdconf"));
        paths.push(join(join(dir, ".mpd").as_str(), "mpd.conf"));
    }
    paths.push(String::from_str("/etc/mpd.conf"));
    assert(texts(paths@) =~= candidates_of(dir_view(config_dir), dir_view(home_dir)));
    paths
}

/// Lists the places where the configuration of the user who runs the
/// process may lie.
pub fn default_candidates() -> (paths: Vec<String>)
    ensures
        exists|config_dir: Option<Seq<char>>, home_dir: Option<Seq<char>>|
            texts(paths@) == candidates_of(config_dir, home_dir),
{
    let config_dir = user_config_dir();
    let home_dir = user_home_dir();
    let config = as_dir(&config_dir);
    let home = as_dir(&home_dir);
    let paths = config_candidates(config, home);
    assert(texts(paths@) == candidates_of(dir_view(config), dir_view(home)));
    paths
}

/// Lends a directory out as a string slice.
fn as_dir(dir: &Option<String>) -> (r: Option<&str>)
    ensures
        dir_view(r) == match *dir {
            Some(path) => Some(path@),
            None => None,
        },
{
    match dir {
        Some(path) => Some(path.as_str()),
        None => None,
    }
}

/// Picks the configuration file: the first of `candidates` that was found
/// to hold a file. `present[i]` tells whether `candidates[i]` does; a
/// candidate that `present` does not reach was not looked at, and counts
/// as absent.
pub fn find_config(candidates: &Vec<String>, present: &Vec<bool>) -> (r: Result<String, Error>)
    ensures
        match r {
            Ok(path) => exists|at: int|
                #[trigger] is_first_present(present@, candidates@.len(), at) && path@
                    == candidates[at]@,
            Err(e) => e@ == ErrorView::ConfigNotFound && forall|at: int|
                !#[trigger] is_first_present(present@, candidates@.len(), at),
        },
{
    let mut i: usize = 0;
    while i < candidates.len() && i < present.len()
        invariant
            forall|j: int| 0 <= j < i && j < present.len() ==> !present[j],
        decreases candidates.len() - i,
    {
        if present[i] {
            assert(is_first_present(present@, candidates@.len(), i as int));
            return Ok(candidates[i].clone());
        }
        i = i + 1;
    }
    assert forall|at: int| !#[trigger] is_first_present(present@, candidates@.len(), at) by {
        if 0 <= at < i && at < present.len() {
            assert(!present[at]);
        }
    }
    Err(Error::ConfigNotFound)
}

} // verus!
