//! The calls this library makes into the model hub client's cache, the
//! platform directory lookup and std's path handling. Each item states only
//! what the called code guarantees.

use vstd::prelude::*;
use hf_hub::Cache;
use std::path::{Path, PathBuf};

verus! {

/// The path that `std::path::Path::parent` gives for a path, if any.
pub uninterp spec fn parent_of(p: Seq<char>) -> Option<Seq<char>>;

/// The path that `std::path::Path::join` gives for a base and a segment.
pub uninterp spec fn joined(base: Seq<char>, segment: Seq<char>) -> Seq<char>;

/// The text that the `Debug` form of `std::path::Path` gives for a path: the
/// path quoted, with special characters escaped.
pub uninterp spec fn debug_text(p: Seq<char>) -> Seq<char>;

/// Relies on the `Debug` impl of `std::path::Path`, which depends on the path
/// alone.
#[verifier::external_body]
pub(crate) fn path_debug(p: &str) -> (r: String)
    ensures
        r@ == debug_text(p@),
{
    format!("{:?}", Path::new(p))
}

/// Relies on `std::path::Path::parent`: the directory holding `p`, or `None`
/// where `p` is a root or empty. Paths here are UTF-8, so the conversion back
/// to a string is exact.
#[verifier::external_body]
pub(crate) fn parent_dir(p: &str) -> (r: Option<String>)
    ensures
        match r {
            Some(d) => parent_of(p@) == Some(d@),
            None => parent_of(p@) is None,
        },
{
    Path::new(p).parent().map(|d| d.to_string_lossy().into_owned())
}

/// Relies on `std::path::Path::join`: `segment` appended to `base`. Both are
/// UTF-8, so the conversion back to a string is exact.
#[verifier::external_body]
pub(crate) fn join_path(base: &str, segment: &str) -> (r: String)
    ensures
        r@ == joined(base@, segment@),
{
    Path::new(base).join(segment).to_string_lossy().into_owned()
}

/// Relies on `dirs::cache_dir`: the user's cache directory, when the platform
/// can name one. It depends on the environment, so nothing is stated of it.
/// A non-UTF-8 directory is read lossily.
#[verifier::external_body]
pub(crate) fn platform_cache_dir() -> (r: Option<String>) {
    dirs::cache_dir().map(|d| d.to_string_lossy().into_owned())
}

/// A model identifier with each `/` written as `--`.
pub open spec fn dashed(id: Seq<char>) -> Seq<char>
    decreases id.len(),
{
    if id.len() == 0 {
        Seq::empty()
    } else {
        let head = if id[0] == '/' {
            seq!['-', '-']
        } else {
            seq![id[0]]
        };
        head + dashed(id.drop_first())
    }
}

/// Where the hub client keeps the file `filename` of the model `model_id` at
/// revision `commit`: `<cache>/models--<dashed id>/snapshots/<commit>/<filename>`.
pub open spec fn snapshot_file(
    cache_dir: Seq<char>,
    model_id: Seq<char>,
    commit: Seq<char>,
    filename: Seq<char>,
) -> Seq<char> {
    let repo = joined(cache_dir, "models--"@ + dashed(model_id));
    joined(joined(joined(repo, "snapshots"@), commit), filename)
}

/// Relies on `hf_hub::CacheRepo::get` for a model repository: the local path
/// of `filename` when a previous download left it in the cache under
/// `cache_dir`, else `None`. Which of the two it is depends on the disk; a
/// path that it gives lies in the model's snapshot of the revision that the
/// cache's `refs/main` names.
#[verifier::external_body]
pub(crate) fn cached_model_file(cache_dir: &str, model_id: &str, filename: &str) -> (r: Option<
    String,
>)
    ensures
        r matches Some(p) ==> exists|commit: Seq<char>|
            p@ == snapshot_file(cache_dir@, model_id@, commit, filename@),
{
    Cache::new(PathBuf::from(cache_dir))
        .model(model_id.to_string())
        .get(filename)
        .map(|p| p.to_string_lossy().into_owned())
}

} // verus!
