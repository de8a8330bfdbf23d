//! The connection files on offer.

use vstd::prelude::*;
use vstd::string::*;

verus! {

/// The line that reports a directory that could not be listed; `reason` is
/// what the listing said.
pub open spec fn listing_failure(reason: Seq<char>) -> Seq<char> {
    "find_rdp_files error : "@ + reason
}

/// What came of looking for connection files.
#[derive(Debug)]
pub struct Found {
    /// The connection files to offer.
    pub files: Vec<String>,
    /// The line to log, where there is something to report.
    pub report: Option<String>,
}

/// The connection files to offer, given what listing the directory for them
/// gave: the files that were found, as they came; or none, and a line to log,
/// where the directory could not be listed.
pub fn find_rdp_files(listing: Result<Vec<String>, String>) -> (found: Found)
    ensures
        listing matches Ok(files) ==> found.files == files && found.report is None,
        listing matches Err(reason) ==> found.files@.len() == 0 && found.report is Some
            && found.report->0@ == listing_failure(reason@),
{
    match listing {
        Ok(files) => Found { files, report: None },
        Err(reason) => Found {
            files: Vec::new(),
            report: Some(String::from_str("find_rdp_files error : ").concat(reason.as_str())),
        },
    }
}

} // verus!
