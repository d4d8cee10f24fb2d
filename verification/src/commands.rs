use vstd::prelude::*;

pub mod download;
pub mod list;
pub mod mount;
pub mod sync;

use vstd::string::StringExecFns;

verus! {

/// One of the three distributable software components: two frontend variants
/// and one backend.
#[derive(Clone, Copy, PartialEq, Eq, Structural, Debug)]
pub enum Target {
    Ethernet,
    Control,
    Backend,
}

/// The address of the remote release index for a target.
pub open spec fn releases_endpoint_spec(t: Target) -> Seq<char> {
    match t {
        Target::Ethernet => "https://api.github.com/repos/HyperloopUPV-H8/ev-frontend/releases"@,
        Target::Control => "https://api.github.com/repos/HyperloopUPV-H8/cs-frontend/releases"@,
        Target::Backend => "https://api.github.com/repos/HyperloopUPV-H8/h8-backend/releases"@,
    }
}

impl Target {
    /// The URL that lists this target's releases.
    pub fn releases_endpoint(&self) -> (r: String)
        ensures
            r@ == releases_endpoint_spec(*self),
    {
        match self {
            Target::Ethernet => String::from_str(
                "https://api.github.com/repos/HyperloopUPV-H8/ev-frontend/releases",
            ),
            Target::Control => String::from_str(
                "https://api.github.com/repos/HyperloopUPV-H8/cs-frontend/releases",
            ),
            Target::Backend => String::from_str(
                "https://api.github.com/repos/HyperloopUPV-H8/h8-backend/releases",
            ),
        }
    }
}

/// The commands the tool offers, each with its parameters.
#[derive(Debug)]
pub enum Commands {
    /// List the release tags available for a target.
    List(list::Params),
    /// Download every asset of one of a target's releases.
    Download(download::Params),
    /// Place downloaded files into their runnable local layout.
    Mount(mount::Params),
    /// Download and mount the backend together with a chosen frontend.
    Sync(sync::Params),
}

} // verus!
