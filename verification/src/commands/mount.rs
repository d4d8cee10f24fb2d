use vstd::prelude::*;

use vstd::string::StringExecFns;

use crate::commands::Target;

verus! {

/// Parameters of the mount step: the target and the directory where its
/// downloaded files are stored.
#[derive(Debug)]
pub struct Params {
    pub target: Target,
    pub path: String,
}

/// What can go wrong while mounting a target.
#[derive(Debug)]
pub enum Error {
    /// Local file access failed; the payload describes the fault.
    File(String),
    /// The archive could not be read or expanded; the payload describes the
    /// fault.
    Zip(String),
}

impl Error {
    /// The human-readable description of this error.
    pub open spec fn message_spec(&self) -> Seq<char> {
        match self {
            Error::File(d) => "file error: "@ + d@,
            Error::Zip(d) => "zip error: "@ + d@,
        }
    }

    /// Renders this error as one human-readable line.
    pub fn message(&self) -> (r: String)
        ensures
            r@ == self.message_spec(),
    {
        match self {
            Error::File(d) => {
                let mut m = String::from_str("file error: ");
                m.append(d.as_str());
                m
            },
            Error::Zip(d) => {
                let mut m = String::from_str("zip error: ");
                m.append(d.as_str());
                m
            },
        }
    }
}

/// The local placement a target needs once its files are downloaded.
#[derive(Clone, Copy, PartialEq, Eq, Structural, Debug)]
pub enum MountWork {
    /// The downloaded files already are the runnable layout.
    KeepInPlace,
    /// The well-known archive in the directory must be expanded there.
    ExpandArchive,
}

/// The placement each target kind needs: the backend's files stay as they
/// are; both frontends ship as an archive that must be expanded.
pub open spec fn work_for(t: Target) -> MountWork {
    match t {
        Target::Backend => MountWork::KeepInPlace,
        Target::Control => MountWork::ExpandArchive,
        Target::Ethernet => MountWork::ExpandArchive,
    }
}

/// Decides what the mount step must do for the given target.
pub fn run(params: &Params) -> (w: MountWork)
    ensures
        w == work_for(params.target),
{
    match params.target {
        Target::Backend => MountWork::KeepInPlace,
        Target::Control => MountWork::ExpandArchive,
        Target::Ethernet => MountWork::ExpandArchive,
    }
}

/// Mounting the backend is a no-op: its files are already in place.
pub fn mount_backend() -> (r: Result<(), Error>)
    ensures
        r is Ok,
{
    Ok(())
}

/// The name of the archive a frontend's release ships its files in.
pub fn frontend_file_name() -> (s: &'static str)
    ensures
        s@ == "static.zip"@,
{
    "static.zip"
}

/// How expanding a frontend's archive went; handed back by the caller that
/// performed the expansion.
#[derive(Debug)]
pub enum ExtractOutcome {
    /// The archive was opened and fully expanded.
    Extracted,
    /// The archive file could not be opened; the payload describes the fault.
    FileFault(String),
    /// The archive was absent of content or corrupt; the payload describes
    /// the fault.
    ZipFault(String),
}

/// Turns the outcome of expanding a frontend's archive into the mount step's
/// result, keeping the fault's description intact.
pub fn mount_frontend(outcome: ExtractOutcome) -> (r: Result<(), Error>)
    ensures
        r == match outcome {
            ExtractOutcome::Extracted => Ok::<(), Error>(()),
            ExtractOutcome::FileFault(d) => Err(Error::File(d)),
            ExtractOutcome::ZipFault(d) => Err(Error::Zip(d)),
        },
{
    match outcome {
        ExtractOutcome::Extracted => Ok(()),
        ExtractOutcome::FileFault(d) => Err(Error::File(d)),
        ExtractOutcome::ZipFault(d) => Err(Error::Zip(d)),
    }
}

} // verus!
