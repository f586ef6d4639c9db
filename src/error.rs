use vstd::prelude::*;
use vstd::string::StringExecFns;

verus! {

/// Every way an update cycle can fail.
#[derive(Debug, Clone, Copy, PartialEq, Eq, Structural)]
pub enum Error {
    /// The latest release has no asset named "manifest".
    ManifestNotFound,
    /// Asking the release host for metadata failed.
    RequestError,
    /// Downloading an asset failed.
    ReqwestError,
    /// A text is not a 64 character hexadecimal digest.
    InvalidHash,
    /// A non-blank manifest line (numbered from 1) is not `<digest>  <path>`.
    InvalidManifestLine(usize),
    /// A local file could not be read.
    FileReadError,
    /// The latest release carries no package archive.
    ReleaseZipNotFound,
    /// The staging directory could not be created.
    TmpDirCreateFail,
    /// Writing or extracting the downloaded archive failed.
    GenericError,
}

impl Error {
    /// The text shown to the user for this error.
    pub open spec fn spec_message(self) -> Seq<char> {
        match self {
            Error::ManifestNotFound => "Could not find manifest file in latest release"@,
            Error::RequestError => "Request error"@,
            Error::ReqwestError => "Request error"@,
            Error::InvalidHash => "Invalid hash in manifest file"@,
            Error::InvalidManifestLine(_) => "Malformed line in manifest file"@,
            Error::FileReadError => "Failed to read file"@,
            Error::ReleaseZipNotFound =>
                "Could not find the zip file in the latest release. Please contact the developers."@,
            Error::TmpDirCreateFail => "Could not create temporary directory"@,
            Error::GenericError => "GenericError"@,
        }
    }

    pub fn message(&self) -> (r: String)
        ensures
            r@ == self.spec_message(),
    {
        match self {
            Error::ManifestNotFound => String::from_str(
                "Could not find manifest file in latest release",
            ),
            Error::RequestError => String::from_str("Request error"),
            Error::ReqwestError => String::from_str("Request error"),
            Error::InvalidHash => String::from_str("Invalid hash in manifest file"),
            Error::InvalidManifestLine(_) => String::from_str("Malformed line in manifest file"),
            Error::FileReadError => String::from_str("Failed to read file"),
            Error::ReleaseZipNotFound => String::from_str(
                "Could not find the zip file in the latest release. Please contact the developers.",
            ),
            Error::TmpDirCreateFail => String::from_str("Could not create temporary directory"),
            Error::GenericError => String::from_str("GenericError"),
        }
    }
}

} // verus!
