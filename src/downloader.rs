//! The cache locator and the model fetcher.

use vstd::prelude::*;
use crate::hub::{
    cached_model_file, join_path, joined, parent_dir, parent_of, platform_cache_dir, snapshot_file,
};

verus! {

/// The kind of an I/O error met while a file was being fetched.
#[derive(Clone, Copy, Debug, PartialEq, Eq, Structural)]
pub enum IoKind {
    NotFound,
    PermissionDenied,
    AlreadyExists,
    StorageFull,
    ReadOnlyFilesystem,
    ConnectionReset,
    ConnectionAborted,
    BrokenPipe,
    TimedOut,
    UnexpectedEof,
    Interrupted,
    Other,
}

/// The shape of a hub client failure, as plain values.
#[derive(Clone, Copy, Debug, PartialEq, Eq, Structural)]
pub enum HubFailure {
    /// An expected response header was absent.
    MissingHeader,
    /// A response header could not be interpreted.
    InvalidHeader,
    /// The hub answered with this HTTP status.
    Status(u16),
    /// The hub could not be reached (DNS, connection, TLS, malformed reply).
    Transport,
    /// A numeric value in a response could not be parsed.
    ParseInt,
    /// An I/O error, while reading the reply or while writing the cache.
    Io(IoKind),
    /// A transfer was retried too many times.
    TooManyRetries,
    /// A partially downloaded file on disk is corrupt.
    InvalidResume,
    /// Another writer holds the lock on the file being downloaded.
    LockAcquisition,
}

/// I/O errors that come from the connection to the hub rather than from the
/// local disk.
pub open spec fn is_transfer_io(kind: IoKind) -> bool {
    match kind {
        IoKind::ConnectionReset | IoKind::ConnectionAborted | IoKind::BrokenPipe
        | IoKind::TimedOut | IoKind::UnexpectedEof | IoKind::Interrupted => true,
        _ => false,
    }
}

/// Why a fetch failed. Each kind is told apart so that callers can react to
/// it; the `String` fields carry the hub client's own description.
#[derive(Debug)]
pub enum FetchError {
    /// The model identifier is empty.
    InvalidIdentifier,
    /// The hub could not be reached, or answered in a way that is not usable.
    NetworkFailure(String),
    /// The hub has no such model, or the model has no such file.
    NotFound(String),
    /// The local cache could not be read or written.
    LocalIOFailure(String),
    /// The fetched file's path has no parent directory.
    LayoutInvariantViolation,
}

/// HTTP statuses with which the hub says that a model or file does not exist
/// (it answers 401 for a repository that it does not know of).
pub open spec fn is_absence_status(code: u16) -> bool {
    code == 401 || code == 404
}

/// The failure kind that a hub client failure maps to.
pub open spec fn fetch_error_spec(failure: HubFailure, detail: String) -> FetchError {
    match failure {
        HubFailure::Status(code) => if is_absence_status(code) {
            FetchError::NotFound(detail)
        } else {
            FetchError::NetworkFailure(detail)
        },
        HubFailure::Io(kind) => if is_transfer_io(kind) {
            FetchError::NetworkFailure(detail)
        } else {
            FetchError::LocalIOFailure(detail)
        },
        HubFailure::InvalidResume | HubFailure::LockAcquisition => FetchError::LocalIOFailure(
            detail,
        ),
        _ => FetchError::NetworkFailure(detail),
    }
}

/// The cache root for a platform cache directory, or for the current
/// directory where the platform names none.
pub open spec fn cache_root_spec(platform: Option<Seq<char>>) -> Seq<char> {
    let base = match platform {
        Some(dir) => dir,
        None => "."@,
    };
    joined(base, "huggingface"@)
}

impl FetchError {
    /// The human-readable text of the failure.
    pub open spec fn message_spec(&self) -> Seq<char> {
        match self {
            FetchError::InvalidIdentifier => "invalid model identifier: it is empty"@,
            FetchError::NetworkFailure(d) => "network failure: "@ + d@,
            FetchError::NotFound(d) => "not found on the model hub: "@ + d@,
            FetchError::LocalIOFailure(d) => "local cache I/O failure: "@ + d@,
            FetchError::LayoutInvariantViolation => "the fetched file has no parent directory"@,
        }
    }

    pub fn message(&self) -> (r: String)
        ensures
            r@ == self.message_spec(),
            r@.len() > 0,
    {
        proof {
            reveal_strlit("invalid model identifier: it is empty");
            reveal_strlit("network failure: ");
            reveal_strlit("not found on the model hub: ");
            reveal_strlit("local cache I/O failure: ");
            reveal_strlit("the fetched file has no parent directory");
        }
        match self {
            FetchError::InvalidIdentifier => String::from_str("invalid model identifier: it is empty"),
            FetchError::NetworkFailure(d) => String::from_str("network failure: ").concat(d.as_str()),
            FetchError::NotFound(d) => String::from_str("not found on the model hub: ").concat(d.as_str()),
            FetchError::LocalIOFailure(d) => String::from_str("local cache I/O failure: ").concat(d.as_str()),
            FetchError::LayoutInvariantViolation => String::from_str("the fetched file has no parent directory"),
        }
    }
}

/// Maps a hub client failure to its failure kind: an absence status to
/// `NotFound`, a local cache problem to `LocalIOFailure`, anything else on the
/// way to or from the hub (an I/O error of the connection included) to
/// `NetworkFailure`.
pub fn fetch_error_of(failure: HubFailure, detail: String) -> (r: FetchError)
    ensures
        r == fetch_error_spec(failure, detail),
{
    match failure {
        HubFailure::Status(code) => if code == 401 || code == 404 {
            FetchError::NotFound(detail)
        } else {
            FetchError::NetworkFailure(detail)
        },
        HubFailure::Io(kind) => match kind {
            IoKind::ConnectionReset | IoKind::ConnectionAborted | IoKind::BrokenPipe
            | IoKind::TimedOut | IoKind::UnexpectedEof | IoKind::Interrupted => {
                FetchError::NetworkFailure(detail)
            },
            _ => FetchError::LocalIOFailure(detail),
        },
        HubFailure::InvalidResume | HubFailure::LockAcquisition => FetchError::LocalIOFailure(
            detail,
        ),
        _ => FetchError::NetworkFailure(detail),
    }
}

/// The cache root: `huggingface` under the platform cache directory, or under
/// the current directory where there is none. It never fails.
pub fn resolve_cache_root(platform: Option<String>) -> (r: String)
    ensures
        r@ == cache_root_spec(
            match platform {
                Some(d) => Some(d@),
                None => None,
            },
        ),
{
    let base = match platform {
        Some(dir) => dir,
        None => String::from_str("."),
    };
    join_path(base.as_str(), "huggingface")
}

/// The directory of a fetched model: the parent of its configuration file.
pub fn model_dir_of(config_path: &str) -> (r: Result<String, FetchError>)
    ensures
        match r {
            Ok(d) => parent_of(config_path@) == Some(d@),
            Err(e) => parent_of(config_path@) is None && e == FetchError::LayoutInvariantViolation,
        },
{
    match parent_dir(config_path) {
        Some(d) => Ok(d),
        None => Err(FetchError::LayoutInvariantViolation),
    }
}

/// What a fetch does once the cache has been consulted.
#[derive(Debug)]
pub enum FetchStep {
    /// The cache answered: this is the outcome, and nothing is downloaded.
    Done(Result<String, FetchError>),
    /// The cache does not hold the file: the named file has to be downloaded.
    Download(String),
}

/// Decides from the cache lookup whether a download is needed: a cached
/// configuration file settles the fetch on its directory, which depends on
/// that path alone, with no download; only a miss asks for one.
pub fn after_lookup(cached: Option<String>) -> (r: FetchStep)
    ensures
        cached is None <==> r is Download,
        r matches FetchStep::Download(f) ==> f@ == "config.json"@,
        cached matches Some(p) ==> match r {
            FetchStep::Done(Ok(d)) => parent_of(p@) == Some(d@),
            FetchStep::Done(Err(e)) => parent_of(p@) is None && e
                == FetchError::LayoutInvariantViolation,
            FetchStep::Download(_) => false,
        },
{
    match cached {
        Some(path) => FetchStep::Done(model_dir_of(path.as_str())),
        None => FetchStep::Download(String::from_str("config.json")),
    }
}

/// Fetches models' configuration files into a local cache.
pub struct ModelDownloader {
    cache_dir: String,
}

impl ModelDownloader {
    /// The directory under which fetched files are stored.
    pub closed spec fn root(&self) -> Seq<char> {
        self.cache_dir@
    }

    /// A downloader on the cache root that the platform gives.
    pub fn new() -> (r: Self)
        ensures
            exists|platform: Option<Seq<char>>| r.root() == cache_root_spec(platform),
    {
        let platform = platform_cache_dir();
        let cache_dir = resolve_cache_root(platform);
        ModelDownloader { cache_dir }
    }

    /// A downloader on the given cache root.
    pub fn with_cache_root(cache_dir: String) -> (r: Self)
        ensures
            r.root() == cache_dir@,
    {
        ModelDownloader { cache_dir }
    }

    /// The directory under which fetched files are stored.
    pub fn cache_root(&self) -> (r: &String)
        ensures
            r@ == self.root(),
    {
        &self.cache_dir
    }

    /// Starts a fetch of the model's `config.json`. An empty identifier is
    /// refused before any lookup. Otherwise the cache is consulted: a cached
    /// file settles the fetch on its directory, the model's snapshot directory
    /// under the cache root, with no download; a miss asks for a download of
    /// `config.json` into the cache root, whose outcome `finish_download`
    /// settles.
    pub fn download(&self, model_id: &str) -> (r: FetchStep)
        ensures
            model_id@.len() == 0 <==> r == FetchStep::Done(
                Err::<String, FetchError>(FetchError::InvalidIdentifier),
            ),
            r matches FetchStep::Done(Ok(d)) ==> exists|commit: Seq<char>|
                parent_of(snapshot_file(self.root(), model_id@, commit, "config.json"@)) == Some(
                    d@,
                ),
            model_id@.len() > 0 ==> (r matches FetchStep::Done(Err(e)) ==> e
                == FetchError::LayoutInvariantViolation),
            r matches FetchStep::Download(f) ==> f@ == "config.json"@,
    {
        if model_id.is_empty() {
            return FetchStep::Done(Err(FetchError::InvalidIdentifier));
        }
        let cached = cached_model_file(self.cache_dir.as_str(), model_id, "config.json");
        let ghost hit = cached;
        let step = after_lookup(cached);
        proof {
            if step is Done && step->Done_0 is Ok {
                let d = step->Done_0->Ok_0;
                let p = hit->Some_0;
                let commit = choose|commit: Seq<char>|
                    p@ == snapshot_file(self.cache_dir@, model_id@, commit, "config.json"@);
                assert(parent_of(snapshot_file(self.root(), model_id@, commit, "config.json"@))
                    == Some(d@));
            }
        }
        step
    }
}

/// Settles a fetch with the outcome of the hub download that `download` asked
/// for: the downloaded file's directory, or the failure's kind with the hub
/// client's description.
pub fn finish_download(outcome: Result<String, (HubFailure, String)>) -> (r: Result<
    String,
    FetchError,
>)
    ensures
        match outcome {
            Ok(p) => match r {
                Ok(d) => parent_of(p@) == Some(d@),
                Err(e) => parent_of(p@) is None && e == FetchError::LayoutInvariantViolation,
            },
            Err((f, t)) => r == Err::<String, FetchError>(fetch_error_spec(f, t)),
        },
{
    match outcome {
        Ok(path) => model_dir_of(path.as_str()),
        Err((failure, detail)) => Err(fetch_error_of(failure, detail)),
    }
}

} // verus!
