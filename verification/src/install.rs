//! The client-side install state machine.
//!
//! An `InstallSession` drives one install of an `Update` response: the
//! pre-download deletion plan, the per-artifact fetch/skip decisions, the
//! classification of transfer failures, and the recovery marker's
//! lifecycle. The host performs each directive (delete, check, fetch,
//! install, write or clear the marker, restart) and reports the outcome
//! back; every decision between those steps is made — and proved — here.

use vstd::prelude::*;

use crate::paths::extension_spec;
use crate::paths::extension_of;
use crate::protocol::ArtifactEntry;
use crate::protocol::EntryModel;
use crate::protocol::InstallLocation;
use crate::protocol::LocationModel;
use crate::protocol::ResponseCode;
use crate::protocol::UpdateResponse;

verus! {

/// Where one install attempt stands.
#[derive(Clone, Copy, Debug, PartialEq, Eq, Structural)]
pub enum Phase {
    /// Ready to take up the next artifact.
    Ready,
    /// The host is checking whether the current destination exists.
    CheckingDestination,
    /// The host is fetching the current artifact's bytes.
    AwaitingData,
    /// The host is installing the current artifact.
    AwaitingInstall,
    /// Every artifact is fetched or skipped and installed.
    Finished,
    /// The attempt is abandoned; installed artifacts stay in place.
    Failed,
    /// Descriptor exhaustion: the marker is written and the process
    /// restarts; the resumed attempt recovers through the marker.
    RestartRequired,
}

/// A phase from which the session takes no further step.
pub open spec fn terminal(p: Phase) -> bool {
    p == Phase::Finished || p == Phase::Failed || p == Phase::RestartRequired
}

/// What the host is told to do before the next report back.
pub enum StepDirective {
    /// Check whether this destination path exists on disk.
    CheckDestination { path: String },
    /// The install is complete: clear the recovery marker (a no-op when
    /// absent) and report success.
    ClearMarkerAndFinish,
    /// The install is abandoned.
    Abort,
}

/// The decision once the destination's existence is known.
pub enum FetchDirective {
    /// Request these bytes over the data channel.
    Fetch { path: String, download_index: u64 },
    /// Treat the artifact as already installed by a prior attempt.
    Skip,
}

/// The decision once the fetch attempt's outcome is known.
pub enum DataDirective {
    /// Hand the bytes to the installer.
    Install { path: String, data: Vec<u8> },
    /// Write the recovery marker durably, then restart the process.
    WriteMarkerAndRestart,
    /// The install is abandoned.
    Abort,
}

/// How a data-channel fetch ended.
pub enum FetchOutcome {
    /// The artifact's full contents.
    Data(Vec<u8>),
    /// Connecting failed because local descriptors ran out.
    ExhaustedDescriptors,
    /// Connecting failed for any other reason.
    ConnectFailed,
    /// The connection opened but reading the body failed.
    ReadFailed,
}

/// One install attempt over an update response's artifact list.
pub struct InstallSession {
    pub files: Vec<ArtifactEntry>,
    pub primary_extension: String,
    pub recovering: bool,
    pub position: usize,
    pub phase: Phase,
}

/// Mathematical view of an `InstallSession`.
pub struct SessionModel {
    pub files: Seq<EntryModel>,
    pub primary_extension: Seq<char>,
    pub recovering: bool,
    pub position: int,
    pub phase: Phase,
}

impl View for InstallSession {
    type V = SessionModel;

    open spec fn view(&self) -> SessionModel {
        SessionModel {
            files: Seq::new(self.files@.len(), |i: int| self.files@[i]@),
            primary_extension: self.primary_extension@,
            recovering: self.recovering,
            position: self.position as int,
            phase: self.phase,
        }
    }
}

impl SessionModel {
    /// The session's parameters, which no step changes.
    pub open spec fn same_setup(self, other: SessionModel) -> bool {
        &&& self.files == other.files
        &&& self.primary_extension == other.primary_extension
        &&& self.recovering == other.recovering
    }

    /// The path of the artifact the session currently works on.
    pub open spec fn current_path(self) -> Seq<char> {
        self.files[self.position].install_location->AbsolutePath_0
    }
}

impl InstallSession {
    /// The session never points past its artifact list, and while an
    /// artifact is in flight it points at one with a defined location.
    pub open spec fn wf(self) -> bool {
        &&& self@.position <= self@.files.len()
        &&& (self@.phase == Phase::CheckingDestination || self@.phase == Phase::AwaitingData
            || self@.phase == Phase::AwaitingInstall) ==> self@.position < self@.files.len()
            && self@.files[self@.position].install_location is AbsolutePath
    }
}

/// The deletion candidates of the pre-download step: every artifact's
/// absolute destination, in response order. The host deletes those that
/// are existing directories, so that files removed from a renamed or
/// reshaped directory do not linger.
pub open spec fn predelete_paths(files: Seq<EntryModel>) -> Seq<Seq<char>>
    decreases files.len(),
{
    if files.len() == 0 {
        Seq::empty()
    } else {
        let rest = predelete_paths(files.drop_first());
        match files[0].install_location {
            LocationModel::AbsolutePath(p) => seq![p] + rest,
            LocationModel::Reserved => rest,
        }
    }
}

fn collect_predelete(files: &Vec<ArtifactEntry>, from: usize) -> (r: Vec<String>)
    requires
        from <= files@.len(),
    ensures
        r.deep_view() == predelete_paths(
            Seq::new(files@.len(), |i: int| files@[i]@).skip(from as int),
        ),
    decreases files@.len() - from,
{
    let ghost fv = Seq::new(files@.len(), |i: int| files@[i]@);
    if from == files.len() {
        let r: Vec<String> = Vec::new();
        proof {
            assert(fv.skip(from as int) =~= Seq::<EntryModel>::empty());
            assert(r.deep_view() =~= predelete_paths(fv.skip(from as int)));
        }
        r
    } else {
        let mut rest = collect_predelete(files, from + 1);
        proof {
            assert(fv.skip(from as int).drop_first() =~= fv.skip(from as int + 1));
            assert(fv.skip(from as int)[0] == fv[from as int]);
        }
        match &files[from].install_location {
            InstallLocation::AbsolutePath(p) => {
                rest.insert(0, p.clone());
                proof {
                    assert(rest.deep_view() =~= predelete_paths(fv.skip(from as int)));
                }
                rest
            },
            InstallLocation::Reserved => {
                proof {
                    assert(rest.deep_view() =~= predelete_paths(fv.skip(from as int)));
                }
                rest
            },
        }
    }
}

impl InstallSession {
    /// Open an install attempt for an `Update` response.
    ///
    /// Returns the session and the pre-download deletion candidates. The
    /// deletion step runs only when no recovery marker is present: a
    /// recovering install must not re-delete directories it may already
    /// have partially repopulated, so with the marker present the
    /// candidate list is empty.
    pub fn start(response: &UpdateResponse, marker_present: bool, primary_extension: &str) -> (r:
        (InstallSession, Vec<String>))
        requires
            response@.code == ResponseCode::Update,
        ensures
            r.0.wf(),
            r.0@.files == response@.required_files,
            r.0@.primary_extension == primary_extension@,
            r.0@.recovering == marker_present,
            r.0@.position == 0,
            r.0@.phase == Phase::Ready,
            marker_present ==> r.1@.len() == 0,
            !marker_present ==> r.1.deep_view() == predelete_paths(response@.required_files),
    {
        let mut files: Vec<ArtifactEntry> = Vec::new();
        let mut i: usize = 0;
        while i < response.required_files.len()
            invariant
                0 <= i <= response.required_files@.len(),
                files@.len() == i,
                forall|j: int| 0 <= j < i ==> files@[j] == response.required_files@[j],
            decreases response.required_files@.len() - i,
        {
            files.push(response.required_files[i].clone());
            i = i + 1;
        }
        let to_delete: Vec<String> = if marker_present {
            Vec::new()
        } else {
            collect_predelete(&files, 0)
        };
        let session = InstallSession {
            files,
            primary_extension: primary_extension.to_owned(),
            recovering: marker_present,
            position: 0,
            phase: Phase::Ready,
        };
        proof {
            assert(session@.files =~= response@.required_files);
            if !marker_present {
                assert(Seq::new(session.files@.len(), |k: int| session.files@[k]@).skip(0)
                    =~= response@.required_files);
            }
        }
        (session, to_delete)
    }

    /// Take up the next artifact: finish once past the last one, abort on
    /// a location the protocol reserves, and otherwise ask the host
    /// whether the destination already exists.
    pub fn begin_artifact(&mut self) -> (d: StepDirective)
        requires
            old(self).wf(),
            old(self)@.phase == Phase::Ready,
        ensures
            final(self).wf(),
            final(self)@.same_setup(old(self)@),
            final(self)@.position == old(self)@.position,
            (if old(self)@.position == old(self)@.files.len() {
                final(self)@.phase == Phase::Finished && d is ClearMarkerAndFinish
            } else {
                match old(self)@.files[old(self)@.position].install_location {
                    LocationModel::AbsolutePath(p) => {
                        &&& final(self)@.phase == Phase::CheckingDestination
                        &&& d matches StepDirective::CheckDestination { path } && path@ == p
                    },
                    LocationModel::Reserved => final(self)@.phase == Phase::Failed && d is Abort,
                }
            }),
    {
        if self.position == self.files.len() {
            self.phase = Phase::Finished;
            return StepDirective::ClearMarkerAndFinish;
        }
        match &self.files[self.position].install_location {
            InstallLocation::AbsolutePath(p) => {
                let path = p.clone();
                self.phase = Phase::CheckingDestination;
                StepDirective::CheckDestination { path }
            },
            InstallLocation::Reserved => {
                self.phase = Phase::Failed;
                StepDirective::Abort
            },
        }
    }

    /// Decide, once the destination's existence is known, whether to skip
    /// the artifact. Skipping happens only in recovery: the destination
    /// exists, the marker was present when the attempt started, and the
    /// destination is not of the package's primary executable extension —
    /// the one kind a resumed install always re-fetches. A normal install
    /// fetches every artifact.
    pub fn destination_checked(&mut self, exists: bool) -> (d: FetchDirective)
        requires
            old(self).wf(),
            old(self)@.phase == Phase::CheckingDestination,
        ensures
            final(self).wf(),
            final(self)@.same_setup(old(self)@),
            (if exists && old(self)@.recovering && extension_spec(old(self)@.current_path())
                != old(self)@.primary_extension {
                &&& d is Skip
                &&& final(self)@.position == old(self)@.position + 1
                &&& final(self)@.phase == Phase::Ready
            } else {
                &&& d matches FetchDirective::Fetch { path, download_index } && path@ == old(
                    self,
                )@.current_path() && download_index == old(self)@.files[old(
                    self,
                )@.position].download_index
                &&& final(self)@.position == old(self)@.position
                &&& final(self)@.phase == Phase::AwaitingData
            }),
    {
        let (path, index) = match &self.files[self.position].install_location {
            InstallLocation::AbsolutePath(p) => (p.clone(), self.files[self.position].download_index),
            InstallLocation::Reserved => unreached(),
        };
        let n = self.files.len();
        if exists && self.recovering {
            let ext = extension_of(path.as_str());
            if !(ext == self.primary_extension) {
                assert(self.position < n);
                self.position = self.position + 1;
                self.phase = Phase::Ready;
                return FetchDirective::Skip;
            }
        }
        self.phase = Phase::AwaitingData;
        FetchDirective::Fetch { path, download_index: index }
    }

    /// Classify the outcome of the data-channel fetch. Bytes go to the
    /// installer; descriptor exhaustion writes the recovery marker and
    /// restarts the process, exactly once, after which this session takes
    /// no further step; any other failure abandons the attempt with the
    /// already-installed artifacts left in place.
    pub fn data_received(&mut self, outcome: FetchOutcome) -> (d: DataDirective)
        requires
            old(self).wf(),
            old(self)@.phase == Phase::AwaitingData,
        ensures
            final(self).wf(),
            final(self)@.same_setup(old(self)@),
            final(self)@.position == old(self)@.position,
            (match outcome {
                FetchOutcome::Data(bytes) => {
                    &&& d matches DataDirective::Install { path, data } && path@ == old(
                        self,
                    )@.current_path() && data@ == bytes@
                    &&& final(self)@.phase == Phase::AwaitingInstall
                },
                FetchOutcome::ExhaustedDescriptors => {
                    &&& d is WriteMarkerAndRestart
                    &&& final(self)@.phase == Phase::RestartRequired
                    &&& terminal(final(self)@.phase)
                },
                FetchOutcome::ConnectFailed => d is Abort && final(self)@.phase == Phase::Failed,
                FetchOutcome::ReadFailed => d is Abort && final(self)@.phase == Phase::Failed,
            }),
    {
        match outcome {
            FetchOutcome::Data(bytes) => {
                let path = match &self.files[self.position].install_location {
                    InstallLocation::AbsolutePath(p) => p.clone(),
                    InstallLocation::Reserved => unreached(),
                };
                self.phase = Phase::AwaitingInstall;
                DataDirective::Install { path, data: bytes }
            },
            FetchOutcome::ExhaustedDescriptors => {
                self.phase = Phase::RestartRequired;
                DataDirective::WriteMarkerAndRestart
            },
            FetchOutcome::ConnectFailed => {
                self.phase = Phase::Failed;
                DataDirective::Abort
            },
            FetchOutcome::ReadFailed => {
                self.phase = Phase::Failed;
                DataDirective::Abort
            },
        }
    }

    /// Record the installer's verdict on the current artifact: move to the
    /// next one, or abandon the attempt exactly as a transfer failure
    /// would.
    pub fn artifact_installed(&mut self, ok: bool) -> (proceed: bool)
        requires
            old(self).wf(),
            old(self)@.phase == Phase::AwaitingInstall,
        ensures
            final(self).wf(),
            final(self)@.same_setup(old(self)@),
            proceed == ok,
            ok ==> final(self)@.position == old(self)@.position + 1 && final(self)@.phase == Phase::Ready,
            !ok ==> final(self)@.position == old(self)@.position && final(self)@.phase == Phase::Failed,
    {
        if ok {
            let n = self.files.len();
            assert(self.position < n);
            self.position = self.position + 1;
            self.phase = Phase::Ready;
            true
        } else {
            self.phase = Phase::Failed;
            false
        }
    }
}

/// Whether a decoded query response offers an update to install. Every
/// other code — no update, a rejected request, an unknown package, or a
/// code this client does not recognise — ends the attempt without
/// installing.
pub fn update_offered(response: &UpdateResponse) -> (b: bool)
    ensures
        b == (response@.code == ResponseCode::Update),
{
    response.code == ResponseCode::Update
}

/// The default installer: accepts every offered update and every file, so
/// an install proceeds unattended. Hosts with a user interface supply
/// their own `Installer`.
pub struct DefaultInstaller;

/// An installer collaborator: decides whether to proceed with an offered
/// update, and persists one artifact at a time. Implemented per host; the
/// state machine never calls it, the host's install loop does.
pub trait Installer {
    fn should_update(&self, response: &UpdateResponse) -> bool;

    fn install_file(&self, path: String, data: Vec<u8>) -> Result<(), ()>;
}

impl Installer for DefaultInstaller {
    fn should_update(&self, response: &UpdateResponse) -> (b: bool)
        ensures
            b,
    {
        true
    }

    fn install_file(&self, path: String, data: Vec<u8>) -> (r: Result<(), ()>)
        ensures
            r is Ok,
    {
        Ok(())
    }
}

} // verus!
