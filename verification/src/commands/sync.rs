use vstd::prelude::*;

use vstd::string::StringExecFns;

use crate::commands::download;
use crate::commands::mount;
use crate::commands::Target;

verus! {

/// The frontend variants a sync can select; the backend is always synced.
#[derive(Clone, Copy, PartialEq, Eq, Structural, Debug)]
pub enum FrontTarget {
    Ethernet,
    Control,
}

/// The target a frontend variant stands for.
pub open spec fn target_of_front(f: FrontTarget) -> Target {
    match f {
        FrontTarget::Ethernet => Target::Ethernet,
        FrontTarget::Control => Target::Control,
    }
}

impl From<FrontTarget> for Target {
    fn from(f: FrontTarget) -> (r: Self) {
        match f {
            FrontTarget::Ethernet => Target::Ethernet,
            FrontTarget::Control => Target::Control,
        }
    }
}

impl vstd::std_specs::convert::FromSpecImpl<FrontTarget> for Target {
    open spec fn obeys_from_spec() -> bool {
        true
    }

    open spec fn from_spec(f: FrontTarget) -> Self {
        target_of_front(f)
    }
}

/// Parameters of a sync: the chosen frontend, optional tags for each half,
/// and the shared output directory.
#[derive(Debug)]
pub struct Params {
    pub target: FrontTarget,
    /// Optional version tag for the backend.
    pub backend_tag: Option<String>,
    /// Optional version tag for the chosen frontend.
    pub frontend_tag: Option<String>,
    /// Output directory for the downloaded files.
    pub output: String,
}

/// What can go wrong during a sync: the union of the listing, download and
/// mount error kinds, with nothing lost in translation.
#[derive(Debug)]
pub enum Error {
    Parse(String),
    Request(String),
    File(String),
    TagNotFound(String),
    Zip(String),
}

/// The sync-level error that stands for a download error, kind for kind,
/// keeping the fault's description intact.
pub open spec fn of_download_error(e: download::Error) -> Error {
    match e {
        download::Error::Parse(d) => Error::Parse(d),
        download::Error::Request(d) => Error::Request(d),
        download::Error::File(d) => Error::File(d),
        download::Error::TagNotFound(t) => Error::TagNotFound(t),
    }
}

/// The sync-level error that stands for a mount error, kind for kind,
/// keeping the fault's description intact.
pub open spec fn of_mount_error(e: mount::Error) -> Error {
    match e {
        mount::Error::File(d) => Error::File(d),
        mount::Error::Zip(d) => Error::Zip(d),
    }
}

impl From<download::Error> for Error {
    fn from(e: download::Error) -> (r: Self) {
        match e {
            download::Error::Parse(d) => Error::Parse(d),
            download::Error::Request(d) => Error::Request(d),
            download::Error::File(d) => Error::File(d),
            download::Error::TagNotFound(t) => Error::TagNotFound(t),
        }
    }
}

impl vstd::std_specs::convert::FromSpecImpl<download::Error> for Error {
    open spec fn obeys_from_spec() -> bool {
        true
    }

    open spec fn from_spec(e: download::Error) -> Self {
        of_download_error(e)
    }
}

impl From<mount::Error> for Error {
    fn from(e: mount::Error) -> (r: Self) {
        match e {
            mount::Error::File(d) => Error::File(d),
            mount::Error::Zip(d) => Error::Zip(d),
        }
    }
}

impl vstd::std_specs::convert::FromSpecImpl<mount::Error> for Error {
    open spec fn obeys_from_spec() -> bool {
        true
    }

    open spec fn from_spec(e: mount::Error) -> Self {
        of_mount_error(e)
    }
}

impl Error {
    /// The human-readable description of this error.
    pub open spec fn message_spec(&self) -> Seq<char> {
        match self {
            Error::Parse(d) => "parse error: "@ + d@,
            Error::Request(d) => "request error: "@ + d@,
            Error::File(d) => "file error: "@ + d@,
            Error::TagNotFound(t) => "tag "@ + t@ + " not found"@,
            Error::Zip(d) => "zip error: "@ + d@,
        }
    }

    /// Renders this error as one human-readable line.
    pub fn message(&self) -> (r: String)
        ensures
            r@ == self.message_spec(),
    {
        match self {
            Error::Parse(d) => {
                let mut m = String::from_str("parse error: ");
                m.append(d.as_str());
                m
            },
            Error::Request(d) => {
                let mut m = String::from_str("request error: ");
                m.append(d.as_str());
                m
            },
            Error::File(d) => {
                let mut m = String::from_str("file error: ");
                m.append(d.as_str());
                m
            },
            Error::TagNotFound(t) => {
                let mut m = String::from_str("tag ");
                m.append(t.as_str());
                m.append(" not found");
                m
            },
            Error::Zip(d) => {
                let mut m = String::from_str("zip error: ");
                m.append(d.as_str());
                m
            },
        }
    }
}

/// Where a sync stands: its four stages in their fixed order, then done.
#[derive(Clone, Copy, PartialEq, Eq, Structural, Debug)]
pub enum SyncStage {
    /// Downloading the backend's release assets.
    DownloadBackend,
    /// Downloading the chosen frontend's release assets.
    DownloadFrontend,
    /// Mounting the backend.
    MountBackend,
    /// Mounting the chosen frontend.
    MountFrontend,
    /// The sync ended, successfully or aborted by a stage failure.
    Done,
}

/// Composes one sync: download the backend, download the chosen frontend,
/// mount the backend, mount the frontend — strictly in that order, each
/// stage finished before the next starts. The first stage failure aborts
/// everything that remains and surfaces that single error; this stage-level
/// fail-fast deliberately contrasts with the no-fail-fast collection inside
/// one download stage. The downloads, mounts and scheduling live with the
/// caller; this machine hands out each stage's parameters and decides what
/// its result means.
pub struct Pipeline {
    params: Params,
    state: SyncStage,
    /// Whether a stage failure aborted the sync.
    failed: Ghost<bool>,
}

impl Pipeline {
    /// Where the sync stands.
    pub closed spec fn stage(&self) -> SyncStage {
        self.state
    }

    /// The sync's parameters.
    pub closed spec fn params_spec(&self) -> Params {
        self.params
    }

    /// Whether a stage failure aborted the sync.
    pub closed spec fn aborted(&self) -> bool {
        self.failed@
    }

    /// An aborted sync runs no further stage: it is done for good.
    pub closed spec fn wf(&self) -> bool {
        self.failed@ ==> self.state is Done
    }

    /// A fresh sync, about to download the backend.
    pub fn new(params: Params) -> (p: Pipeline)
        ensures
            p.wf(),
            p.stage() is DownloadBackend,
            p.params_spec() == params,
            !p.aborted(),
    {
        Pipeline { params, state: SyncStage::DownloadBackend, failed: Ghost(false) }
    }

    /// Where the sync stands, for whoever drives it.
    pub fn current_stage(&self) -> (s: SyncStage)
        ensures
            s == self.stage(),
    {
        self.state
    }

    /// The first stage's parameters: the fixed backend target, the optional
    /// backend tag, and the shared output directory.
    pub fn backend_download_params(&mut self) -> (p: download::Params)
        requires
            old(self).wf(),
            old(self).stage() is DownloadBackend,
        ensures
            final(self).wf(),
            final(self).stage() is DownloadBackend,
            p.target == Target::Backend,
            p.tag == old(self).params_spec().backend_tag,
            p.output == old(self).params_spec().output,
            final(self).params_spec().target == old(self).params_spec().target,
            final(self).params_spec().frontend_tag == old(self).params_spec().frontend_tag,
            final(self).params_spec().output == old(self).params_spec().output,
    {
        download::Params {
            target: Target::Backend,
            tag: self.params.backend_tag.take(),
            output: self.params.output.clone(),
        }
    }

    /// The backend download stage finished. The report's individual entries
    /// are not inspected: only a failure of the download run itself aborts
    /// the sync, which then surfaces that error unchanged in kind; whether a
    /// sync should also stop when single assets inside a succeeding stage
    /// failed is deliberately left open.
    pub fn on_backend_download(
        &mut self,
        r: Result<Vec<download::DownloadOutcome>, download::Error>,
    ) -> (out: Result<(), Error>)
        requires
            old(self).wf(),
            old(self).stage() is DownloadBackend,
        ensures
            final(self).wf(),
            final(self).params_spec() == old(self).params_spec(),
            r is Ok ==> out is Ok && final(self).stage() is DownloadFrontend && !final(self).aborted(),
            r matches Err(e) ==> out == Err::<(), Error>(of_download_error(e)) && final(self).stage() is Done && final(self).aborted(),
    {
        match r {
            Ok(_) => {
                self.state = SyncStage::DownloadFrontend;
                Ok(())
            },
            Err(e) => {
                self.state = SyncStage::Done;
                self.failed = Ghost(true);
                Err(Error::from(e))
            },
        }
    }

    /// The second stage's parameters: the chosen frontend target, the
    /// optional frontend tag, and the shared output directory.
    pub fn frontend_download_params(&mut self) -> (p: download::Params)
        requires
            old(self).wf(),
            old(self).stage() is DownloadFrontend,
        ensures
            final(self).wf(),
            final(self).stage() is DownloadFrontend,
            p.target == target_of_front(old(self).params_spec().target),
            p.tag == old(self).params_spec().frontend_tag,
            p.output == old(self).params_spec().output,
            final(self).params_spec().target == old(self).params_spec().target,
            final(self).params_spec().output == old(self).params_spec().output,
    {
        download::Params {
            target: Target::from(self.params.target),
            tag: self.params.frontend_tag.take(),
            output: self.params.output.clone(),
        }
    }

    /// The frontend download stage finished; judged exactly as the backend
    /// download stage is.
    pub fn on_frontend_download(
        &mut self,
        r: Result<Vec<download::DownloadOutcome>, download::Error>,
    ) -> (out: Result<(), Error>)
        requires
            old(self).wf(),
            old(self).stage() is DownloadFrontend,
        ensures
            final(self).wf(),
            final(self).params_spec() == old(self).params_spec(),
            r is Ok ==> out is Ok && final(self).stage() is MountBackend && !final(self).aborted(),
            r matches Err(e) ==> out == Err::<(), Error>(of_download_error(e)) && final(self).stage() is Done && final(self).aborted(),
    {
        match r {
            Ok(_) => {
                self.state = SyncStage::MountBackend;
                Ok(())
            },
            Err(e) => {
                self.state = SyncStage::Done;
                self.failed = Ghost(true);
                Err(Error::from(e))
            },
        }
    }

    /// The third stage's parameters: mounting the fixed backend target in
    /// the shared output directory.
    pub fn backend_mount_params(&mut self) -> (p: mount::Params)
        requires
            old(self).wf(),
            old(self).stage() is MountBackend,
        ensures
            final(self).wf(),
            final(self).stage() is MountBackend,
            p.target == Target::Backend,
            p.path == old(self).params_spec().output,
            final(self).params_spec() == old(self).params_spec(),
    {
        mount::Params { target: Target::Backend, path: self.params.output.clone() }
    }

    /// The backend mount stage finished; a failure aborts the sync and
    /// surfaces the mount error unchanged in kind.
    pub fn on_backend_mount(&mut self, r: Result<(), mount::Error>) -> (out: Result<(), Error>)
        requires
            old(self).wf(),
            old(self).stage() is MountBackend,
        ensures
            final(self).wf(),
            final(self).params_spec() == old(self).params_spec(),
            r is Ok ==> out is Ok && final(self).stage() is MountFrontend && !final(self).aborted(),
            r matches Err(e) ==> out == Err::<(), Error>(of_mount_error(e)) && final(self).stage() is Done && final(self).aborted(),
    {
        match r {
            Ok(_) => {
                self.state = SyncStage::MountFrontend;
                Ok(())
            },
            Err(e) => {
                self.state = SyncStage::Done;
                self.failed = Ghost(true);
                Err(Error::from(e))
            },
        }
    }

    /// The last stage's parameters: mounting the chosen frontend target in
    /// the shared output directory.
    pub fn frontend_mount_params(&mut self) -> (p: mount::Params)
        requires
            old(self).wf(),
            old(self).stage() is MountFrontend,
        ensures
            final(self).wf(),
            final(self).stage() is MountFrontend,
            p.target == target_of_front(old(self).params_spec().target),
            p.path == old(self).params_spec().output,
            final(self).params_spec() == old(self).params_spec(),
    {
        mount::Params {
            target: Target::from(self.params.target),
            path: self.params.output.clone(),
        }
    }

    /// The frontend mount stage finished: the sync is done, successfully if
    /// and only if no stage failed.
    pub fn on_frontend_mount(&mut self, r: Result<(), mount::Error>) -> (out: Result<(), Error>)
        requires
            old(self).wf(),
            old(self).stage() is MountFrontend,
        ensures
            final(self).wf(),
            final(self).params_spec() == old(self).params_spec(),
            final(self).stage() is Done,
            r is Ok ==> out is Ok && !final(self).aborted(),
            r matches Err(e) ==> out == Err::<(), Error>(of_mount_error(e)) && final(self).aborted(),
    {
        match r {
            Ok(_) => {
                self.state = SyncStage::Done;
                Ok(())
            },
            Err(e) => {
                self.state = SyncStage::Done;
                self.failed = Ghost(true);
                Err(Error::from(e))
            },
        }
    }
}

/// A sync that a stage failure aborted is done for good: no later stage —
/// no further download, no mount — is ever entered.
pub proof fn lemma_aborted_sync_runs_nothing_more(p: &Pipeline)
    requires
        p.wf(),
        p.aborted(),
    ensures
        p.stage() is Done,
{
}

} // verus!
