//! Where downloaded images are kept: a directory under the user's cache
//! directory, one file per source address, named by a hash of the address.

use vstd::prelude::*;
use vstd::string::*;
use std::collections::hash_map::DefaultHasher;
use std::hash::{BuildHasher, BuildHasherDefault};
use crate::error::{ErrorKind, PasteError, PasteErrorView};
use crate::text::{decimal, decimal_spec};

verus! {

/// `base` with `component` pushed as a path is pushed on Unix: an absolute
/// component takes the place of the base; any other is appended, after a
/// separator where the base is not empty and does not end in one.
pub open spec fn joined(base: Seq<char>, component: Seq<char>) -> Seq<char> {
    if component.len() > 0 && component[0] == '/' {
        component
    } else if base.len() == 0 || base.last() == '/' {
        base + component
    } else {
        base + seq!['/'] + component
    }
}

/// Pushes a component onto a path.
pub fn join_path(base: &str, component: &str) -> (path: String)
    ensures
        path@ == joined(base@, component@),
{
    if component.unicode_len() > 0 && component.get_char(0) == '/' {
        return String::from_str(component);
    }
    let n = base.unicode_len();
    let mut path = String::from_str(base);
    if n > 0 && base.get_char(n - 1) != '/' {
        proof {
            reveal_strlit("/");
        }
        assert("/"@ =~= seq!['/']);
        path.append("/");
    }
    path.append(component);
    path
}

/// The image cache below the cache directory `base`.
pub open spec fn gif_cache_dir_spec(base: Seq<char>) -> Seq<char> {
    joined(joined(base, "win11-clipboard-history"@), "gifs"@)
}

/// The error where the user has no cache directory.
pub open spec fn no_cache_dir() -> PasteErrorView {
    PasteErrorView { kind: ErrorKind::FetchFailed, message: "Failed to get cache directory"@ }
}

/// The image cache below the user's cache directory `base`, where there is one.
pub fn gif_cache_dir_under(base: Option<String>) -> (dir: Result<String, PasteError>)
    ensures
        match base {
            Some(base) => dir is Ok && dir->Ok_0@ == gif_cache_dir_spec(base@),
            None => dir is Err && dir->Err_0@ == no_cache_dir(),
        },
{
    match base {
        Some(base) => {
            let app_dir = join_path(base.as_str(), "win11-clipboard-history");
            Ok(join_path(app_dir.as_str(), "gifs"))
        },
        None => Err(PasteError::fixed(ErrorKind::FetchFailed, "Failed to get cache directory")),
    }
}

/// `dirs::cache_dir`: the cache directory of the user, which the environment
/// of the process decides; its path is handed on as text. Nothing is claimed
/// of the result.
#[verifier::external_body]
fn user_cache_dir() -> (base: Option<String>) {
    match dirs::cache_dir() {
        Some(path) => Some(path.to_string_lossy().into_owned()),
        None => None,
    }
}

/// The image cache of the user: the directory `gifs` in
/// `win11-clipboard-history` below whatever the user's cache directory is,
/// and an error where the user has none. The directory is named, not created.
pub fn get_gif_cache_dir() -> (dir: Result<String, PasteError>)
    ensures
        match dir {
            Ok(path) => exists|base: Seq<char>| path@ == gif_cache_dir_spec(base),
            Err(e) => e@ == no_cache_dir(),
        },
{
    gif_cache_dir_under(user_cache_dir())
}

/// The hash that names the cache file of an address: what the default
/// hasher of std, freshly made, gives for the address as a string. Which
/// number that is, is left to std; all that is used of it is that one
/// address has one hash.
pub uninterp spec fn url_hash(url: Seq<char>) -> u64;

/// `BuildHasher::hash_one` of std on a `BuildHasherDefault<DefaultHasher>`:
/// it feeds `url` to a default hasher made by `DefaultHasher::default` and
/// returns what `finish` gives. Such hashers are all alike, so the result
/// depends on `url` alone.
#[verifier::external_body]
fn hash_url(url: &str) -> (hash: u64)
    ensures
        hash == url_hash(url@),
{
    BuildHasherDefault::<DefaultHasher>::default().hash_one(url)
}

/// The name of the cache file for a hash: the hash in decimal, then `.gif`.
pub open spec fn cache_file_name_spec(hash: u64) -> Seq<char> {
    decimal_spec(hash as nat) + ".gif"@
}

pub fn cache_file_name(hash: u64) -> (name: String)
    ensures
        name@ == cache_file_name_spec(hash),
{
    let mut name = decimal(hash);
    name.append(".gif");
    name
}

/// The cache file in `dir` for a hash.
pub open spec fn cache_file_spec(dir: Seq<char>, hash: u64) -> Seq<char> {
    joined(dir, cache_file_name_spec(hash))
}

/// The cache file in `dir` for a hash.
pub fn cache_file_for(dir: &str, hash: u64) -> (path: String)
    ensures
        path@ == cache_file_spec(dir@, hash),
{
    let name = cache_file_name(hash);
    join_path(dir, name.as_str())
}

/// The cache file in `dir` for the address `url`: the same file for the same
/// address, whenever it is asked for.
pub fn gif_cache_file(dir: &str, url: &str) -> (path: String)
    ensures
        path@ == cache_file_spec(dir@, url_hash(url@)),
{
    cache_file_for(dir, hash_url(url))
}

} // verus!
