use vstd::prelude::*;

use vstd::string::StringExecFns;

use crate::commands::Target;

verus! {

/// Parameters of the listing step: which target's releases to fetch.
#[derive(Debug)]
pub struct Params {
    pub target: Target,
}

/// One release of a target: a tag together with its downloadable assets,
/// newest release first in the fetched sequence.
#[derive(Debug)]
pub struct Release {
    pub tag_name: String,
    pub assets: Vec<Asset>,
}

/// One downloadable file belonging to a release.
#[derive(Debug)]
pub struct Asset {
    /// Where the asset's bytes are served from.
    pub browser_download_url: String,
    /// Used verbatim as the destination file name; trusted to be safe.
    pub name: String,
    /// Sent as the Accept header when requesting the asset.
    pub content_type: String,
    /// Informational only; never used to preallocate or verify.
    pub size: u64,
    /// When the asset was last updated, as seconds since the Unix epoch;
    /// informational only.
    pub updated_at: i64,
}

impl Clone for Asset {
    fn clone(&self) -> (res: Self)
        ensures
            res == *self,
    {
        Asset {
            browser_download_url: self.browser_download_url.clone(),
            name: self.name.clone(),
            content_type: self.content_type.clone(),
            size: self.size,
            updated_at: self.updated_at,
        }
    }
}

/// What can go wrong while fetching the release index.
#[derive(Debug)]
pub enum Error {
    /// The request itself failed; the payload describes the transport or
    /// HTTP-level fault.
    Request(String),
    /// The response body was not a valid release listing; the payload
    /// describes the fault.
    Parse(String),
}

impl Error {
    /// The human-readable description of this error.
    pub open spec fn message_spec(&self) -> Seq<char> {
        match self {
            Error::Request(d) => "Error making request: "@ + d@,
            Error::Parse(d) => "Error parsing response: "@ + d@,
        }
    }

    /// Renders this error as one human-readable line.
    pub fn message(&self) -> (r: String)
        ensures
            r@ == self.message_spec(),
    {
        match self {
            Error::Request(d) => {
                let mut m = String::from_str("Error making request: ");
                m.append(d.as_str());
                m
            },
            Error::Parse(d) => {
                let mut m = String::from_str("Error parsing response: ");
                m.append(d.as_str());
                m
            },
        }
    }
}

} // verus!
