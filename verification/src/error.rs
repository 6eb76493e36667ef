//! The per-category acquisition errors. A failing category is reported with
//! one of these and the remaining categories still run.
use vstd::prelude::*;

verus! {

use vstd::string::StringExecFns;

/// Why one category's acquisition failed. No variant aborts the whole run:
/// the aggregator reports the category and continues.
#[derive(Debug, Copy, Clone, PartialEq, Eq, Structural)]
pub enum SourceError {
    /// The shell inventory query produced no output.
    EmptyOutput,
    /// The shell inventory query produced output that is not text.
    DecodeFailed,
    /// A data row of the inventory table has fewer columns than the header.
    MalformedRow,
    /// The sampling interface reported zero processor cores.
    NoCpu,
    /// The vendor management library could not be initialized or could not
    /// enumerate devices.
    VendorUnavailable,
    /// The long OS version string could not be read.
    MissingOsVersion,
    /// The host name could not be read.
    MissingHostName,
}

impl SourceError {
    /// The message reported for this error.
    pub open spec fn spec_message(self) -> Seq<char> {
        match self {
            SourceError::EmptyOutput => "wmic returned empty result for request."@,
            SourceError::DecodeFailed => "failed to convert wmic query result to String object."@,
            SourceError::MalformedRow => "wmic returned a malformed table row."@,
            SourceError::NoCpu => "no CPU cores were reported."@,
            SourceError::VendorUnavailable => "failed to read NVIDIA GPU information."@,
            SourceError::MissingOsVersion => "failed to detect OS version."@,
            SourceError::MissingHostName => "failed to detect Host name."@,
        }
    }

    /// Renders the message reported for this error.
    pub fn message(&self) -> (r: String)
        ensures
            r@ == self.spec_message(),
    {
        match self {
            SourceError::EmptyOutput => String::from_str("wmic returned empty result for request."),
            SourceError::DecodeFailed => String::from_str(
                "failed to convert wmic query result to String object.",
            ),
            SourceError::MalformedRow => String::from_str("wmic returned a malformed table row."),
            SourceError::NoCpu => String::from_str("no CPU cores were reported."),
            SourceError::VendorUnavailable => String::from_str(
                "failed to read NVIDIA GPU information.",
            ),
            SourceError::MissingOsVersion => String::from_str("failed to detect OS version."),
            SourceError::MissingHostName => String::from_str("failed to detect Host name."),
        }
    }
}

} // verus!
