//! Per-variant decisions of the fetch-and-persist pipeline.
//!
//! The caller performs the filesystem and network work; these functions decide
//! which variants are eligible, where they go, whether a local copy can be kept,
//! and whether a fresh download is accepted. `HBClient::next_action` strings the
//! decisions together: a variant that is fetched at all is first inspected on
//! disk, and only a missing or invalid local copy is replaced.
use vstd::prelude::*;

use crate::config::{contains_string, holds};
use crate::error::ApiError;
use crate::integrity::verifies;
use crate::filename::{file_name_for, file_name_spec, NameError};
use crate::types::{Download, DownloadStruct};

verus! {

/// Download client settings: where files go, which headers every request
/// carries, and which platforms are downloaded.
pub struct HBClient {
    pub download_folder: String,
    pub headers: Vec<(String, String)>,
    pub platforms: Vec<String>,
}

/// What the pipeline does with one variant of a download.
pub open spec fn plan_spec(
    platforms: Seq<String>,
    d: &Download,
    v: &DownloadStruct,
) -> Option<Result<Seq<char>, NameError>> {
    match v.url {
        None => None,
        Some(u) => if !holds(platforms, d.platform@) {
            None
        } else {
            Some(file_name_spec(u.web@))
        },
    }
}

impl HBClient {
    pub fn new(
        download_folder: String,
        headers: Vec<(String, String)>,
        platforms: Vec<String>,
    ) -> (r: HBClient)
        ensures
            r.download_folder == download_folder,
            r.headers == headers,
            r.platforms == platforms,
    {
        HBClient { download_folder, headers, platforms }
    }

    /// Whether downloads for platform `p` are wanted.
    pub fn allows_platform(&self, p: &String) -> (r: bool)
        ensures
            r == holds(self.platforms@, p@),
    {
        contains_string(&self.platforms, p)
    }

    /// Decides whether variant `v` of download `d` is fetched, and under which
    /// local file name: `Ok(None)` skips it (no URL, or a platform that is not
    /// wanted), `Ok(Some(name))` fetches it into `name`.
    pub fn plan_variant(&self, d: &Download, v: &DownloadStruct) -> (r: Result<Option<String>, ApiError>)
        ensures
            plan_spec(self.platforms@, d, v) is None <==> r matches Ok(None),
            r matches Ok(Some(n)) ==> plan_spec(self.platforms@, d, v) == Some(
                Ok::<Seq<char>, NameError>(n@),
            ),
            r matches Err(e) ==> match plan_spec(self.platforms@, d, v) {
                Some(Err(NameError::Parse)) => e is UrlParse,
                Some(Err(NameError::NoFileName)) => e is MalformedUrl,
                _ => false,
            },
    {
        match &v.url {
            None => Ok(None),
            Some(u) => {
                if !self.allows_platform(&d.platform) {
                    return Ok(None);
                }
                match file_name_for(u.web.as_str()) {
                    Ok(n) => Ok(Some(n)),
                    Err(e) => Err(e),
                }
            },
        }
    }
}

/// What is found at a variant's target path before downloading.
#[derive(Clone, Copy, Debug, PartialEq, Eq, Structural)]
pub enum LocalCopy {
    Missing,
    Valid,
    Invalid,
}

/// The classification of a target path.
pub open spec fn resolve_spec(exists: bool, passes: bool) -> LocalCopy {
    if !exists {
        LocalCopy::Missing
    } else if passes {
        LocalCopy::Valid
    } else {
        LocalCopy::Invalid
    }
}

/// Classifies the target path: whether a file exists there and, if so, whether
/// its content passed the variant's check.
pub fn resolve_local_copy(exists: bool, passes: bool) -> (r: LocalCopy)
    ensures
        r == resolve_spec(exists, passes),
{
    if !exists {
        LocalCopy::Missing
    } else if passes {
        LocalCopy::Valid
    } else {
        LocalCopy::Invalid
    }
}

/// Whether a variant must be fetched: only a valid local copy is kept.
pub open spec fn fetch_needed(c: LocalCopy) -> bool {
    c != LocalCopy::Valid
}

/// Whether a variant must be fetched, given what is at its target path.
pub fn needs_fetch(c: LocalCopy) -> (r: bool)
    ensures
        r == fetch_needed(c),
{
    match c {
        LocalCopy::Valid => false,
        _ => true,
    }
}

/// Decides on a freshly written file named `file_name`: accepted when its
/// content passed the variant's check, otherwise an integrity error (the
/// caller removes the file).
pub fn accept_download(file_name: &String, passes: bool) -> (r: Result<(), ApiError>)
    ensures
        passes <==> r is Ok,
        r matches Err(e) ==> e matches ApiError::IntegrityMismatch(n) && n@ == file_name@,
{
    if passes {
        Ok(())
    } else {
        Err(ApiError::IntegrityMismatch(file_name.clone()))
    }
}

/// How far the caller has got with one variant.
#[derive(Clone, Copy, Debug, PartialEq, Eq, Structural)]
pub enum Progress {
    /// Nothing done yet.
    Start,
    /// The target path was inspected: whether a file is there, and whether its
    /// content passed the variant's check.
    LocalChecked { exists: bool, passes: bool },
    /// The download was written to the target path, and its content was checked.
    Written { passes: bool },
}

/// What the caller does next for one variant.
#[derive(Clone, Debug, PartialEq)]
pub enum Action {
    /// Nothing: the variant is not fetched (no URL, or an unwanted platform).
    Skip,
    /// Inspect the file of this name in the download folder.
    InspectLocal(String),
    /// Fetch the URL and write it to the file of this name, replacing it.
    Fetch(String),
    /// The variant is complete.
    Finished,
}

impl HBClient {
    /// The next step for variant `v` of download `d`, given the progress so far.
    pub fn next_action(&self, d: &Download, v: &DownloadStruct, progress: Progress) -> (r: Result<
        Action,
        ApiError,
    >)
        ensures
            match plan_spec(self.platforms@, d, v) {
                None => r matches Ok(Action::Skip),
                Some(Err(NameError::Parse)) => r matches Err(ApiError::UrlParse(_)),
                Some(Err(NameError::NoFileName)) => r matches Err(ApiError::MalformedUrl),
                Some(Ok(n)) => match progress {
                    Progress::Start => r matches Ok(Action::InspectLocal(m)) && m@ == n,
                    Progress::LocalChecked { exists, passes } => if fetch_needed(
                        resolve_spec(exists, passes),
                    ) {
                        r matches Ok(Action::Fetch(m)) && m@ == n
                    } else {
                        r matches Ok(Action::Finished)
                    },
                    Progress::Written { passes } => if passes {
                        r matches Ok(Action::Finished)
                    } else {
                        r matches Err(ApiError::IntegrityMismatch(m)) && m@ == n
                    },
                },
            },
    {
        let name = match self.plan_variant(d, v) {
            Err(e) => return Err(e),
            Ok(None) => return Ok(Action::Skip),
            Ok(Some(n)) => n,
        };
        match progress {
            Progress::Start => Ok(Action::InspectLocal(name)),
            Progress::LocalChecked { exists, passes } => {
                if needs_fetch(resolve_local_copy(exists, passes)) {
                    Ok(Action::Fetch(name))
                } else {
                    Ok(Action::Finished)
                }
            },
            Progress::Written { passes } => match accept_download(&name, passes) {
                Ok(()) => Ok(Action::Finished),
                Err(e) => Err(e),
            },
        }
    }
}

/// A download for a platform that is not wanted yields no fetch, for every
/// one of its variants.
pub proof fn lemma_unwanted_platform_skipped(platforms: Seq<String>, d: &Download)
    requires
        !holds(platforms, d.platform@),
    ensures
        forall|i: int|
            0 <= i < d.download_struct@.len() ==> plan_spec(platforms, d, &#[trigger] d.download_struct@[i])
                is None,
{
}

/// A variant without a URL yields no fetch.
pub proof fn lemma_no_url_skipped(platforms: Seq<String>, d: &Download, v: &DownloadStruct)
    requires
        v.url is None,
    ensures
        plan_spec(platforms, d, v) is None,
{
}

/// An existing file whose content passes the variant's check is kept: no fetch.
pub proof fn lemma_valid_copy_kept(v: &DownloadStruct, content: Seq<u8>)
    requires
        verifies(v, content),
    ensures
        !fetch_needed(resolve_spec(true, verifies(v, content))),
{
}

/// An existing file whose content fails the variant's check is fetched again.
pub proof fn lemma_invalid_copy_refetched(v: &DownloadStruct, content: Seq<u8>)
    requires
        !verifies(v, content),
    ensures
        resolve_spec(true, verifies(v, content)) == LocalCopy::Invalid,
        fetch_needed(resolve_spec(true, verifies(v, content))),
{
}

} // verus!
