//! The provisioning pipeline: how the files of a new instance come about.
//!
//! Provisioning is a dialogue. The pipeline names an action, the caller
//! carries it out (creates directories, downloads, runs an installer) and
//! reports the outcome, and the pipeline answers with the events to publish
//! and the next action. Writing the configuration file is the commit point:
//! whatever fails before it is confirmed ends in a rollback of the
//! instance's directory.
//!
//! Every update reports the units that the run has reached so far, so the
//! progress of a run never goes down. The pipeline publishes the start of
//! the progression and its updates. The end is published by the registry
//! when the run is handed back to it, after the instance was registered
//! or its reservation given up.

use vstd::prelude::*;
use vstd::string::*;
use crate::config::{derived_config, kind_name, Flavour, FlavourKind, FlavourView, RestoreConfig, SetupConfig, SetupConfigView};
use crate::error::{Error, ErrorInner, ErrorView};
use crate::events::{event_views, CausedBy, CausedByView, Event, EventView, Progress, ProgressionStartValue, ProgressionStartValueView, Snowflake, THOUSANDTHS};
use crate::text::{append_decimal, decimal};

verus! {

/// The units of progress that a whole provisioning run is worth.
pub const TOTAL_PROGRESS: u32 = 10;

/// The units that the download of the runtime is worth.
pub const RUNTIME_WEIGHT: u32 = 4;

/// The units that the download of the server binary is worth.
pub const BINARY_WEIGHT: u32 = 3;

/// What the pipeline is waiting for.
#[derive(Debug, Clone, Copy, PartialEq, Eq, Structural)]
pub enum ProvisionStep {
    /// Step 1: the directory tree and the placeholder files are being made.
    CreatingLayout,
    /// Step 2: the runtime that the version needs is being looked up.
    ResolvingRuntime,
    /// Step 2: the runtime archive is being downloaded.
    DownloadingRuntime,
    /// Step 2: the runtime archive is being unpacked.
    ExtractingRuntime,
    /// Step 2: the unpacked runtime is being moved into the cache.
    InstallingRuntime,
    /// Step 3: the download address of the server binary is being looked up.
    ResolvingBinary,
    /// Step 3: the server binary is being downloaded.
    DownloadingBinary,
    /// Step 3: the installer of the flavour is running.
    RunningInstaller,
    /// Step 3: the note on JVM arguments is being written.
    WritingJvmArgs,
    /// Step 4: the configuration file is being written.
    WritingConfig,
    /// The instance is provisioned.
    Done,
    /// Provisioning failed and the directory is to be removed.
    Failed,
}

impl ProvisionStep {
    /// Whether the pipeline is over.
    pub open spec fn is_terminal(self) -> bool {
        self == ProvisionStep::Done || self == ProvisionStep::Failed
    }

    /// Whether the step belongs to the download and installation of the
    /// server binary, the third of the four reported steps.
    pub open spec fn is_binary_step(self) -> bool {
        self == ProvisionStep::ResolvingBinary || self == ProvisionStep::DownloadingBinary || self
            == ProvisionStep::RunningInstaller || self == ProvisionStep::WritingJvmArgs
    }

    /// The position of the step in the run.
    pub open spec fn rank(self) -> nat {
        match self {
            ProvisionStep::CreatingLayout => 0,
            ProvisionStep::ResolvingRuntime => 1,
            ProvisionStep::DownloadingRuntime => 2,
            ProvisionStep::ExtractingRuntime => 3,
            ProvisionStep::InstallingRuntime => 4,
            ProvisionStep::ResolvingBinary => 5,
            ProvisionStep::DownloadingBinary => 6,
            ProvisionStep::RunningInstaller => 7,
            ProvisionStep::WritingJvmArgs => 8,
            ProvisionStep::WritingConfig => 9,
            ProvisionStep::Done => 10,
            ProvisionStep::Failed => 11,
        }
    }
}

/// What the caller reports back.
#[derive(Debug)]
pub enum StepOutcome {
    /// The directories and placeholder files exist.
    LayoutCreated,
    /// The runtime for the version is known; `cached` says whether the
    /// cache holds it already.
    RuntimeResolved { url: String, major_version: u64, cached: bool },
    /// A chunk of `step` bytes arrived, which makes `downloaded` bytes of
    /// `total`, if the total is known.
    Downloaded { step: u64, downloaded: u64, total: Option<u64> },
    /// The download is complete.
    DownloadFinished,
    /// The archive was unpacked into `entries` top-level entries.
    RuntimeExtracted { entries: u64 },
    /// The runtime is in the cache.
    RuntimeInstalled,
    /// The server binary for the flavour and version is at `url`.
    BinaryResolved { url: String, flavour: Flavour },
    /// No build matches the flavour and version.
    BinaryNotFound,
    /// The installer ended.
    InstallerExited { success: bool },
    /// The note on JVM arguments was written.
    JvmArgsWritten,
    /// The configuration file was written.
    ConfigWritten,
    /// The action could not be carried out.
    Failed { error: Error },
}

/// An outcome as a mathematical value.
pub enum StepOutcomeView {
    LayoutCreated,
    RuntimeResolved { url: Seq<char>, major_version: u64, cached: bool },
    Downloaded { step: u64, downloaded: u64, total: Option<u64> },
    DownloadFinished,
    RuntimeExtracted { entries: u64 },
    RuntimeInstalled,
    BinaryResolved { url: Seq<char>, flavour: FlavourView },
    BinaryNotFound,
    InstallerExited { success: bool },
    JvmArgsWritten,
    ConfigWritten,
    Failed { error: ErrorView },
}

impl View for StepOutcome {
    type V = StepOutcomeView;

    open spec fn view(&self) -> StepOutcomeView {
        match *self {
            StepOutcome::LayoutCreated => StepOutcomeView::LayoutCreated,
            StepOutcome::RuntimeResolved { url, major_version, cached } => StepOutcomeView::RuntimeResolved {
                url: url@,
                major_version,
                cached,
            },
            StepOutcome::Downloaded { step, downloaded, total } => StepOutcomeView::Downloaded {
                step,
                downloaded,
                total,
            },
            StepOutcome::DownloadFinished => StepOutcomeView::DownloadFinished,
            StepOutcome::RuntimeExtracted { entries } => StepOutcomeView::RuntimeExtracted { entries },
            StepOutcome::RuntimeInstalled => StepOutcomeView::RuntimeInstalled,
            StepOutcome::BinaryResolved { url, flavour } => StepOutcomeView::BinaryResolved {
                url: url@,
                flavour: flavour@,
            },
            StepOutcome::BinaryNotFound => StepOutcomeView::BinaryNotFound,
            StepOutcome::InstallerExited { success } => StepOutcomeView::InstallerExited { success },
            StepOutcome::JvmArgsWritten => StepOutcomeView::JvmArgsWritten,
            StepOutcome::ConfigWritten => StepOutcomeView::ConfigWritten,
            StepOutcome::Failed { error } => StepOutcomeView::Failed { error: error@ },
        }
    }
}

/// What the caller is to do next.
#[derive(Debug, Clone, Copy, PartialEq, Eq, Structural)]
pub enum ProvisionAction {
    /// Create the directories and placeholder files of the layout.
    CreateLayout,
    /// Look up the runtime that the version needs.
    ResolveRuntime,
    /// Download the runtime archive.
    DownloadRuntime,
    /// Unpack the runtime archive.
    ExtractRuntime,
    /// Remove the archive and move the unpacked runtime into the cache.
    InstallRuntime,
    /// Look up the download address of the server binary.
    ResolveBinary,
    /// Download the server binary.
    DownloadBinary,
    /// Run the installer of the flavour, without interactive input or output.
    RunInstaller,
    /// Write the note on JVM arguments.
    WriteJvmArgs,
    /// Write the configuration file.
    WriteConfig,
    /// Go on with the action that is under way.
    Continue,
    /// Hand the provisioned instance to its manager.
    Finish,
    /// Remove the directory of the instance.
    Rollback,
    /// Nothing: the pipeline is over.
    Halt,
}

/// The text for a number of bytes.
pub open spec fn format_byte(bytes: u64) -> Seq<char> {
    decimal(bytes as nat) + " B"@
}

/// The text for a number of bytes out of a known total.
pub open spec fn format_byte_download(downloaded: u64, total: u64) -> Seq<char> {
    decimal(downloaded as nat) + " / "@ + decimal(total as nat) + " B"@
}

/// The name under which the server binary of a flavour is stored.
pub open spec fn binary_file_name(kind: FlavourKind) -> Seq<char> {
    if kind == FlavourKind::Forge {
        "forge-installer.jar"@
    } else {
        "server.jar"@
    }
}

/// The name of the cache directory of the runtime with the given major
/// version.
pub open spec fn runtime_directory(major_version: u64) -> Seq<char> {
    "jre"@ + decimal(major_version as nat)
}

/// The name of a provisioning run.
pub open spec fn progression_name(instance_name: Seq<char>) -> Seq<char> {
    "Setting up Minecraft server "@ + instance_name
}

/// Whether `total` is the size of a download: a total of zero bytes is
/// as good as none.
pub open spec fn size_known(total: Option<u64>) -> bool {
    total is Some && total->Some_0 > 0
}

/// The text for what a download has transferred: the bytes so far out of
/// the total where the size is known, and the bytes so far where it is not.
pub open spec fn transferred(downloaded: u64, total: Option<u64>) -> Seq<char> {
    if size_known(total) {
        format_byte_download(downloaded, total->Some_0)
    } else {
        format_byte(downloaded)
    }
}

/// The thousandths of a unit that a download has earned which is worth
/// `weight` units and has `done` of its `total` bytes: its share of the
/// bytes, rounded down, and nothing while the size is not known.
pub open spec fn share(done: u64, total: u64, weight: u32) -> int {
    if total > 0 {
        (weight * THOUSANDTHS * done) / (total as int)
    } else {
        0
    }
}

/// The message of a chunk of the runtime download.
pub open spec fn runtime_download_message(downloaded: u64, total: Option<u64>) -> Seq<char> {
    "2/4: Downloading JRE "@ + transferred(downloaded, total)
}

/// The message of a chunk of the binary download.
pub open spec fn binary_download_message(kind: FlavourKind, downloaded: u64, total: Option<u64>) -> Seq<char> {
    "3/4: Downloading "@ + kind_name(kind) + " "@ + binary_file_name(kind) + " "@ + transferred(downloaded, total)
}

/// The message of the event that reports a failed run.
pub open spec fn failure_message(detail: Seq<char>) -> Seq<char> {
    "Instance creation failed: "@ + detail
}

/// The error for an archive that did not unpack into one entry.
pub open spec fn archive_shape_error(entries: u64) -> ErrorView {
    ErrorView {
        inner: ErrorInner::MalformedFile,
        detail: "Expected only one file in the JRE archive, got "@ + decimal(entries as nat),
    }
}

/// The error for a flavour and version without a build.
pub open spec fn no_build_error(kind: FlavourKind, version: Seq<char>) -> ErrorView {
    ErrorView {
        inner: ErrorInner::VersionNotFound,
        detail: "Could not find a "@ + kind_name(kind) + " server.jar for version "@ + version,
    }
}

/// The error for an installer that ended without success.
pub open spec fn installer_error() -> ErrorView {
    ErrorView { inner: ErrorInner::FailedToExecute, detail: "Failed to install forge server"@ }
}

/// The error for an outcome that does not answer the action under way.
pub open spec fn protocol_error() -> ErrorView {
    ErrorView { inner: ErrorInner::InternalError, detail: "Outcome does not match the provisioning step"@ }
}

/// A provisioning run as a mathematical value.
pub struct ProvisioningView {
    pub setup: SetupConfigView,
    pub event_id: Snowflake,
    pub caused_by: CausedByView,
    pub creation_time: i64,
    pub step: ProvisionStep,
    pub runtime_url: Seq<char>,
    pub jre_major_version: u64,
    pub binary_url: Seq<char>,
    pub flavour: FlavourView,
    pub failure: Option<ErrorView>,
    /// The bytes that the download under way has transferred, as far as
    /// they count towards its progress.
    pub download_done: u64,
    /// The size of the download under way, or zero while it is not known.
    pub download_total: u64,
}

impl ProvisioningView {
    /// The run that begins for `setup`.
    pub open spec fn initial(
        setup: SetupConfigView,
        event_id: Snowflake,
        caused_by: CausedByView,
        creation_time: i64,
    ) -> ProvisioningView {
        ProvisioningView {
            setup,
            event_id,
            caused_by,
            creation_time,
            step: ProvisionStep::CreatingLayout,
            runtime_url: Seq::empty(),
            jre_major_version: 0,
            binary_url: Seq::empty(),
            flavour: setup.flavour,
            failure: None,
            download_done: 0,
            download_total: 0,
        }
    }

    /// The events with which a run begins: its start, and the update that
    /// announces the first step.
    pub open spec fn initial_events(self) -> Seq<EventView> {
        seq![
            EventView::start(
                self.event_id,
                progression_name(self.setup.name),
                Some(self.setup.uuid),
                Some(TOTAL_PROGRESS),
                Some(
                    ProgressionStartValueView::InstanceCreation {
                        instance_uuid: self.setup.uuid,
                        instance_name: self.setup.name,
                        port: self.setup.port,
                        flavour: kind_name(self.setup.flavour.kind()),
                        game_type: "minecraft"@,
                    },
                ),
                self.caused_by,
            ),
            EventView::update(self.event_id, Progress::units(1), "1/4: Creating directories"@),
        ]
    }

    /// What holds of every run: a run that failed knows why, a download
    /// has not transferred more than its size, and only Forge has an
    /// installer.
    pub open spec fn wf(self) -> bool {
        &&& self.step == ProvisionStep::Failed ==> self.failure is Some
        &&& self.download_done <= self.download_total
        &&& self.step == ProvisionStep::RunningInstaller || self.step == ProvisionStep::WritingJvmArgs
            ==> self.flavour.kind() == FlavourKind::Forge
    }

    /// The units that the run has reached, in thousandths: one for the
    /// layout, then the runtime's four, then the binary's three, one for
    /// the installer where there is one, and one for the record. A
    /// download counts by the share of its bytes that has arrived.
    pub open spec fn position(self) -> int {
        match self.step {
            ProvisionStep::CreatingLayout => 1 * THOUSANDTHS,
            ProvisionStep::ResolvingRuntime => 1 * THOUSANDTHS,
            ProvisionStep::DownloadingRuntime => 1 * THOUSANDTHS + share(
                self.download_done,
                self.download_total,
                RUNTIME_WEIGHT,
            ),
            ProvisionStep::ExtractingRuntime => (1 + RUNTIME_WEIGHT) * THOUSANDTHS,
            ProvisionStep::InstallingRuntime => (1 + RUNTIME_WEIGHT) * THOUSANDTHS,
            ProvisionStep::ResolvingBinary => (1 + RUNTIME_WEIGHT) * THOUSANDTHS,
            ProvisionStep::DownloadingBinary => (1 + RUNTIME_WEIGHT) * THOUSANDTHS + share(
                self.download_done,
                self.download_total,
                BINARY_WEIGHT,
            ),
            ProvisionStep::RunningInstaller => (1 + RUNTIME_WEIGHT + BINARY_WEIGHT + 1) * THOUSANDTHS,
            ProvisionStep::WritingJvmArgs => (1 + RUNTIME_WEIGHT + BINARY_WEIGHT + 1) * THOUSANDTHS,
            _ => if self.flavour.kind() == FlavourKind::Forge {
                TOTAL_PROGRESS * THOUSANDTHS
            } else {
                (TOTAL_PROGRESS - 1) * THOUSANDTHS
            },
        }
    }

    /// The progress that an update reports which is published in this
    /// state of the run.
    pub open spec fn progress(self) -> Progress {
        Progress { thousandths: self.position() as u32 }
    }

    /// The size of the download under way after a chunk came with the
    /// total `total`: the first size that is reported stays.
    pub open spec fn total_after(self, total: Option<u64>) -> u64 {
        if self.download_total > 0 {
            self.download_total
        } else if size_known(total) {
            total->Some_0
        } else {
            0
        }
    }

    /// The bytes that count for the download under way after a chunk
    /// reported `downloaded` bytes: they never go back and never pass the
    /// size.
    pub open spec fn done_after(self, downloaded: u64, total: Option<u64>) -> u64 {
        let size = self.total_after(total);
        if size == 0 || downloaded <= self.download_done {
            self.download_done
        } else if downloaded >= size {
            size
        } else {
            downloaded
        }
    }

    /// The durable record of the instance that this run provisions.
    pub open spec fn restore_config(self) -> crate::config::RestoreConfigView {
        derived_config(self.setup, self.flavour, self.jre_major_version, self.creation_time)
    }

    /// Whether `outcome` answers the action that is under way.
    pub open spec fn expects(self, outcome: StepOutcomeView) -> bool {
        match (self.step, outcome) {
            (ProvisionStep::CreatingLayout, StepOutcomeView::LayoutCreated) => true,
            (ProvisionStep::ResolvingRuntime, StepOutcomeView::RuntimeResolved { .. }) => true,
            (ProvisionStep::DownloadingRuntime, StepOutcomeView::Downloaded { .. }) => true,
            (ProvisionStep::DownloadingRuntime, StepOutcomeView::DownloadFinished) => true,
            (ProvisionStep::ExtractingRuntime, StepOutcomeView::RuntimeExtracted { .. }) => true,
            (ProvisionStep::InstallingRuntime, StepOutcomeView::RuntimeInstalled) => true,
            (ProvisionStep::ResolvingBinary, StepOutcomeView::BinaryResolved { .. }) => true,
            (ProvisionStep::ResolvingBinary, StepOutcomeView::BinaryNotFound) => true,
            (ProvisionStep::DownloadingBinary, StepOutcomeView::Downloaded { .. }) => true,
            (ProvisionStep::DownloadingBinary, StepOutcomeView::DownloadFinished) => true,
            (ProvisionStep::RunningInstaller, StepOutcomeView::InstallerExited { .. }) => true,
            (ProvisionStep::WritingJvmArgs, StepOutcomeView::JvmArgsWritten) => true,
            (ProvisionStep::WritingConfig, StepOutcomeView::ConfigWritten) => true,
            _ => false,
        }
    }

    /// The error that `outcome` ends the run with, if it does.
    ///
    /// A run fails when the caller reports a failure, when the runtime
    /// archive does not unpack into exactly one entry, when no build
    /// matches, when the installer ends without success, and when the
    /// outcome does not answer the action under way. A run that is over
    /// fails no more.
    pub open spec fn failure_of(self, outcome: StepOutcomeView) -> Option<ErrorView> {
        if self.step.is_terminal() {
            None
        } else {
            match outcome {
                StepOutcomeView::Failed { error } => Some(error),
                _ => if !self.expects(outcome) {
                    Some(protocol_error())
                } else {
                    match outcome {
                        StepOutcomeView::RuntimeExtracted { entries } => if entries != 1 {
                            Some(archive_shape_error(entries))
                        } else {
                            None
                        },
                        StepOutcomeView::BinaryNotFound => Some(
                            no_build_error(self.setup.flavour.kind(), self.setup.version),
                        ),
                        StepOutcomeView::InstallerExited { success } => if !success {
                            Some(installer_error())
                        } else {
                            None
                        },
                        _ => None,
                    }
                },
            }
        }
    }

    /// The run after `outcome`.
    pub open spec fn next(self, outcome: StepOutcomeView) -> ProvisioningView {
        if self.step.is_terminal() {
            self
        } else if self.failure_of(outcome) is Some {
            ProvisioningView { step: ProvisionStep::Failed, failure: self.failure_of(outcome), ..self }
        } else {
            match outcome {
                StepOutcomeView::LayoutCreated => ProvisioningView { step: ProvisionStep::ResolvingRuntime, ..self },
                StepOutcomeView::RuntimeResolved { url, major_version, cached } => ProvisioningView {
                    step: if cached {
                        ProvisionStep::ResolvingBinary
                    } else {
                        ProvisionStep::DownloadingRuntime
                    },
                    runtime_url: url,
                    jre_major_version: major_version,
                    download_done: 0,
                    download_total: 0,
                    ..self
                },
                StepOutcomeView::Downloaded { downloaded, total, .. } => ProvisioningView {
                    download_done: self.done_after(downloaded, total),
                    download_total: self.total_after(total),
                    ..self
                },
                StepOutcomeView::DownloadFinished => if self.step == ProvisionStep::DownloadingRuntime {
                    ProvisionStep::ExtractingRuntime.reached_by(self)
                } else if self.flavour.kind() == FlavourKind::Forge {
                    ProvisionStep::RunningInstaller.reached_by(self)
                } else {
                    ProvisionStep::WritingConfig.reached_by(self)
                },
                StepOutcomeView::RuntimeExtracted { .. } => ProvisionStep::InstallingRuntime.reached_by(self),
                StepOutcomeView::RuntimeInstalled => ProvisionStep::ResolvingBinary.reached_by(self),
                StepOutcomeView::BinaryResolved { url, flavour } => ProvisioningView {
                    step: ProvisionStep::DownloadingBinary,
                    binary_url: url,
                    flavour,
                    download_done: 0,
                    download_total: 0,
                    ..self
                },
                StepOutcomeView::InstallerExited { .. } => ProvisionStep::WritingJvmArgs.reached_by(self),
                StepOutcomeView::JvmArgsWritten => ProvisionStep::WritingConfig.reached_by(self),
                StepOutcomeView::ConfigWritten => ProvisionStep::Done.reached_by(self),
                _ => self,
            }
        }
    }

    /// What the caller is to do after `outcome`.
    pub open spec fn action(self, outcome: StepOutcomeView) -> ProvisionAction {
        if self.step.is_terminal() {
            ProvisionAction::Halt
        } else if self.failure_of(outcome) is Some {
            ProvisionAction::Rollback
        } else if outcome is Downloaded {
            ProvisionAction::Continue
        } else {
            match self.next(outcome).step {
                ProvisionStep::CreatingLayout => ProvisionAction::CreateLayout,
                ProvisionStep::ResolvingRuntime => ProvisionAction::ResolveRuntime,
                ProvisionStep::DownloadingRuntime => ProvisionAction::DownloadRuntime,
                ProvisionStep::ExtractingRuntime => ProvisionAction::ExtractRuntime,
                ProvisionStep::InstallingRuntime => ProvisionAction::InstallRuntime,
                ProvisionStep::ResolvingBinary => ProvisionAction::ResolveBinary,
                ProvisionStep::DownloadingBinary => ProvisionAction::DownloadBinary,
                ProvisionStep::RunningInstaller => ProvisionAction::RunInstaller,
                ProvisionStep::WritingJvmArgs => ProvisionAction::WriteJvmArgs,
                ProvisionStep::WritingConfig => ProvisionAction::WriteConfig,
                ProvisionStep::Done => ProvisionAction::Finish,
                ProvisionStep::Failed => ProvisionAction::Rollback,
            }
        }
    }

    /// The message of the update that `outcome` gives rise to, if it gives
    /// rise to one.
    pub open spec fn update_message(self, outcome: StepOutcomeView) -> Option<Seq<char>> {
        match outcome {
            StepOutcomeView::RuntimeResolved { cached, .. } => if cached {
                Some("2/4: JRE already downloaded"@)
            } else {
                None
            },
            StepOutcomeView::Downloaded { downloaded, total, .. } => if self.step
                == ProvisionStep::DownloadingRuntime {
                Some(runtime_download_message(downloaded, total))
            } else {
                Some(binary_download_message(self.setup.flavour.kind(), downloaded, total))
            },
            StepOutcomeView::DownloadFinished => if self.step == ProvisionStep::DownloadingRuntime {
                None
            } else if self.flavour.kind() == FlavourKind::Forge {
                Some("3/4: Installing Forge Server"@)
            } else {
                Some("4/4: Finishing up"@)
            },
            StepOutcomeView::JvmArgsWritten => Some("4/4: Finishing up"@),
            _ => None,
        }
    }

    /// The events that `outcome` gives rise to, in the order in which they
    /// are to be published: at most one update, which reports the units
    /// that the run has reached with this outcome. A run that is over, an
    /// outcome that ends the run and an outcome that fails it publish
    /// nothing here: the end of the progression is published when the run
    /// is handed back to the registry.
    pub open spec fn events(self, outcome: StepOutcomeView) -> Seq<EventView> {
        if self.step.is_terminal() || self.failure_of(outcome) is Some {
            Seq::empty()
        } else {
            match self.update_message(outcome) {
                Some(message) => seq![EventView::update(self.event_id, self.next(outcome).progress(), message)],
                None => Seq::empty(),
            }
        }
    }
}

impl ProvisioningView {
    /// The run after the outcomes of `outcomes`, reported in order.
    pub open spec fn after(self, outcomes: Seq<StepOutcomeView>) -> ProvisioningView
        decreases outcomes.len(),
    {
        if outcomes.len() == 0 {
            self
        } else {
            self.after(outcomes.drop_last()).next(outcomes.last())
        }
    }

    /// The action that answers the outcome at position `i` of `outcomes`.
    pub open spec fn action_at(self, outcomes: Seq<StepOutcomeView>, i: int) -> ProvisionAction {
        self.after(outcomes.take(i)).action(outcomes[i])
    }

    /// The events that answer the outcome at position `i` of `outcomes`.
    pub open spec fn events_at(self, outcomes: Seq<StepOutcomeView>, i: int) -> Seq<EventView> {
        self.after(outcomes.take(i)).events(outcomes[i])
    }
}

impl ProvisionStep {
    /// The run `run` moved on to this step.
    pub open spec fn reached_by(self, run: ProvisioningView) -> ProvisioningView {
        ProvisioningView { step: self, ..run }
    }
}

fn format_byte_text(bytes: u64) -> (text: String)
    ensures
        text@ == format_byte(bytes),
{
    let mut text = String::new();
    append_decimal(&mut text, bytes);
    text.append(" B");
    text
}

fn format_byte_download_text(downloaded: u64, total: u64) -> (text: String)
    ensures
        text@ == format_byte_download(downloaded, total),
{
    let mut text = String::new();
    append_decimal(&mut text, downloaded);
    text.append(" / ");
    append_decimal(&mut text, total);
    text.append(" B");
    text
}

/// The name under which the server binary of a flavour is stored:
/// `forge-installer.jar` for Forge, `server.jar` for every other flavour.
pub fn binary_file_name_of(kind: FlavourKind) -> (name: String)
    ensures
        name@ == binary_file_name(kind),
{
    match kind {
        FlavourKind::Forge => String::from_str("forge-installer.jar"),
        _ => String::from_str("server.jar"),
    }
}

/// The name of the cache directory of the runtime with the given major
/// version: `jre` and the version in decimal.
pub fn runtime_directory_of(major_version: u64) -> (name: String)
    ensures
        name@ == runtime_directory(major_version),
{
    let mut name = String::from_str("jre");
    append_decimal(&mut name, major_version);
    name
}

fn kind_text(kind: FlavourKind) -> (name: String)
    ensures
        name@ == kind_name(kind),
{
    match kind {
        FlavourKind::Vanilla => String::from_str("vanilla"),
        FlavourKind::Fabric => String::from_str("fabric"),
        FlavourKind::Paper => String::from_str("paper"),
        FlavourKind::Spigot => String::from_str("spigot"),
        FlavourKind::Forge => String::from_str("forge"),
    }
}

fn transferred_text(downloaded: u64, total: Option<u64>) -> (text: String)
    ensures
        text@ == transferred(downloaded, total),
{
    match total {
        Some(t) => if t > 0 {
            format_byte_download_text(downloaded, t)
        } else {
            format_byte_text(downloaded)
        },
        None => format_byte_text(downloaded),
    }
}

/// Dividing the bytes of a download into thousandths of its units keeps
/// their order: more bytes never earn less, and the whole download earns
/// its weight.
pub proof fn lemma_share_grows(done: u64, more: u64, total: u64, weight: u32)
    requires
        done <= more <= total,
    ensures
        0 <= share(done, total, weight) <= share(more, total, weight) <= weight * THOUSANDTHS,
        share(0, total, weight) == 0,
{
    if total > 0 {
        let t = total as int;
        let scale = weight * THOUSANDTHS;
        assert(0 <= scale * done <= scale * more <= scale * t) by (nonlinear_arith)
            requires
                0 <= scale,
                0 <= done <= more <= t,
        ;
        vstd::arithmetic::div_mod::lemma_div_is_ordered(0, scale * done, t);
        vstd::arithmetic::div_mod::lemma_div_is_ordered(scale * done, scale * more, t);
        vstd::arithmetic::div_mod::lemma_div_is_ordered(scale * more, scale * t, t);
        vstd::arithmetic::div_mod::lemma_div_multiples_vanish(scale, t);
        assert(scale * 0 == 0);
        assert(scale * t == t * scale) by (nonlinear_arith);
    }
}

fn share_of(done: u64, total: u64, weight: u32) -> (thousandths: u32)
    requires
        done <= total,
        weight <= TOTAL_PROGRESS,
    ensures
        thousandths == share(done, total, weight),
        thousandths <= weight * THOUSANDTHS,
{
    proof {
        lemma_share_grows(done, done, total, weight);
    }
    if total == 0 {
        return 0;
    }
    let scale: u128 = weight as u128 * 1000;
    assert(scale * done <= 10000 * 0xffff_ffff_ffff_ffff) by (nonlinear_arith)
        requires
            scale <= 10000,
            done <= 0xffff_ffff_ffff_ffff,
    ;
    let earned: u128 = scale * (done as u128) / (total as u128);
    earned as u32
}

fn runtime_download_text(downloaded: u64, total: Option<u64>) -> (text: String)
    ensures
        text@ == runtime_download_message(downloaded, total),
{
    let mut text = String::from_str("2/4: Downloading JRE ");
    text.append(transferred_text(downloaded, total).as_str());
    text
}

fn binary_download_text(kind: FlavourKind, downloaded: u64, total: Option<u64>) -> (text: String)
    ensures
        text@ == binary_download_message(kind, downloaded, total),
{
    let mut text = String::from_str("3/4: Downloading ");
    text.append(kind_text(kind).as_str());
    text.append(" ");
    text.append(binary_file_name_of(kind).as_str());
    text.append(" ");
    text.append(transferred_text(downloaded, total).as_str());
    text
}

fn archive_shape_failure(entries: u64) -> (error: Error)
    ensures
        error@ == archive_shape_error(entries),
{
    let mut detail = String::from_str("Expected only one file in the JRE archive, got ");
    append_decimal(&mut detail, entries);
    Error { inner: ErrorInner::MalformedFile, detail }
}

fn no_build_failure(kind: FlavourKind, version: &str) -> (error: Error)
    ensures
        error@ == no_build_error(kind, version@),
{
    let mut detail = String::from_str("Could not find a ");
    detail.append(kind_text(kind).as_str());
    detail.append(" server.jar for version ");
    detail.append(version);
    Error { inner: ErrorInner::VersionNotFound, detail }
}

/// What a step of the pipeline answers: the action to carry out next, and
/// the events to publish before it, in order.
#[derive(Debug)]
pub struct Step {
    pub action: ProvisionAction,
    pub events: Vec<Event>,
}

/// One provisioning run.
#[derive(Debug)]
pub struct Provisioning {
    setup: SetupConfig,
    event_id: Snowflake,
    caused_by: CausedBy,
    creation_time: i64,
    step: ProvisionStep,
    runtime_url: String,
    jre_major_version: u64,
    binary_url: String,
    flavour: Flavour,
    failure: Option<Error>,
    download_done: u64,
    download_total: u64,
}

impl View for Provisioning {
    type V = ProvisioningView;

    closed spec fn view(&self) -> ProvisioningView {
        ProvisioningView {
            setup: self.setup@,
            event_id: self.event_id,
            caused_by: self.caused_by@,
            creation_time: self.creation_time,
            step: self.step,
            runtime_url: self.runtime_url@,
            jre_major_version: self.jre_major_version,
            binary_url: self.binary_url@,
            flavour: self.flavour@,
            failure: match self.failure {
                Some(e) => Some(e@),
                None => None,
            },
            download_done: self.download_done,
            download_total: self.download_total,
        }
    }
}

impl Provisioning {
    #[verifier::type_invariant]
    spec fn inv(self) -> bool {
        self@.wf()
    }

    /// Begins the provisioning of the instance that `setup` describes.
    ///
    /// `event_id` is the number that every event of the run carries,
    /// `caused_by` the origin that its first and last event name, and
    /// `creation_time` the time, in seconds since the epoch, that the
    /// instance's record will bear. The first action is always
    /// `CreateLayout`.
    pub fn begin(setup: SetupConfig, event_id: Snowflake, caused_by: CausedBy, creation_time: i64) -> (started: (
        Provisioning,
        Step,
    ))
        ensures
            started.0@ == ProvisioningView::initial(setup@, event_id, caused_by@, creation_time),
            started.0@.wf(),
            started.1.action == ProvisionAction::CreateLayout,
            event_views(started.1.events@) == started.0@.initial_events(),
    {
        let mut name = String::from_str("Setting up Minecraft server ");
        name.append(setup.name.as_str());
        let start = Event::progression_start(
            event_id,
            name,
            Some(setup.uuid.clone()),
            Some(TOTAL_PROGRESS),
            Some(
                ProgressionStartValue::InstanceCreation {
                    instance_uuid: setup.uuid.clone(),
                    instance_name: setup.name.clone(),
                    port: setup.port,
                    flavour: setup.flavour.to_string(),
                    game_type: String::from_str("minecraft"),
                },
            ),
            caused_by.clone(),
        );
        let first = Event::progression_update(
            event_id,
            Progress { thousandths: THOUSANDTHS },
            String::from_str("1/4: Creating directories"),
        );
        let mut events: Vec<Event> = Vec::new();
        events.push(start);
        events.push(first);
        let flavour = setup.flavour.clone();
        let run = Provisioning {
            setup,
            event_id,
            caused_by,
            creation_time,
            step: ProvisionStep::CreatingLayout,
            runtime_url: String::new(),
            jre_major_version: 0,
            binary_url: String::new(),
            flavour,
            failure: None,
            download_done: 0,
            download_total: 0,
        };
        (run, Step { action: ProvisionAction::CreateLayout, events })
    }

    /// What the pipeline is waiting for.
    pub fn step(&self) -> (step: ProvisionStep)
        ensures
            step == self@.step,
    {
        self.step
    }

    /// Whether the run is over, with success or without.
    pub fn is_over(&self) -> (over: bool)
        ensures
            over == self@.step.is_terminal(),
    {
        match self.step {
            ProvisionStep::Done => true,
            ProvisionStep::Failed => true,
            _ => false,
        }
    }

    /// The number that every event of the run carries.
    pub fn event_id(&self) -> (id: Snowflake)
        ensures
            id == self@.event_id,
    {
        self.event_id
    }

    /// The setup that the run works from.
    pub fn setup(&self) -> (setup: &SetupConfig)
        ensures
            setup@ == self@.setup,
    {
        &self.setup
    }

    /// Where the runtime archive is downloaded from, once it is resolved.
    pub fn runtime_url(&self) -> (url: &str)
        ensures
            url@ == self@.runtime_url,
    {
        self.runtime_url.as_str()
    }

    /// The major version of the runtime, once it is resolved.
    pub fn jre_major_version(&self) -> (version: u64)
        ensures
            version == self@.jre_major_version,
    {
        self.jre_major_version
    }

    /// Where the server binary is downloaded from, once it is resolved.
    pub fn binary_url(&self) -> (url: &str)
        ensures
            url@ == self@.binary_url,
    {
        self.binary_url.as_str()
    }

    /// The flavour of the instance: the one asked for, and from the moment
    /// the binary is resolved the one with its build.
    pub fn flavour(&self) -> (flavour: &Flavour)
        ensures
            flavour@ == self@.flavour,
    {
        &self.flavour
    }

    /// The error that ended the run, if it failed.
    pub fn failure(&self) -> (failure: Option<Error>)
        ensures
            self@.wf(),
            match failure {
                Some(e) => self@.failure == Some(e@),
                None => self@.failure is None,
            },
    {
        proof {
            use_type_invariant(self);
        }
        match &self.failure {
            Some(e) => Some(e.clone()),
            None => None,
        }
    }

    /// The durable record of the instance: what `WriteConfig` is to persist
    /// and what the manager of the instance is made from.
    pub fn restore_config(&self) -> (config: RestoreConfig)
        ensures
            config@ == self@.restore_config(),
    {
        RestoreConfig::from_setup(
            self.setup.clone(),
            self.flavour.clone(),
            self.jre_major_version,
            self.creation_time,
        )
    }

    fn failure_for(&self, outcome: &StepOutcome) -> (failure: Option<Error>)
        ensures
            match failure {
                Some(e) => self@.failure_of(outcome@) == Some(e@),
                None => self@.failure_of(outcome@) is None,
            },
    {
        if self.is_over() {
            return None;
        }
        match outcome {
            StepOutcome::Failed { error } => Some(error.clone()),
            _ => {
                let expected = match (self.step, outcome) {
                    (ProvisionStep::CreatingLayout, StepOutcome::LayoutCreated) => true,
                    (ProvisionStep::ResolvingRuntime, StepOutcome::RuntimeResolved { .. }) => true,
                    (ProvisionStep::DownloadingRuntime, StepOutcome::Downloaded { .. }) => true,
                    (ProvisionStep::DownloadingRuntime, StepOutcome::DownloadFinished) => true,
                    (ProvisionStep::ExtractingRuntime, StepOutcome::RuntimeExtracted { .. }) => true,
                    (ProvisionStep::InstallingRuntime, StepOutcome::RuntimeInstalled) => true,
                    (ProvisionStep::ResolvingBinary, StepOutcome::BinaryResolved { .. }) => true,
                    (ProvisionStep::ResolvingBinary, StepOutcome::BinaryNotFound) => true,
                    (ProvisionStep::DownloadingBinary, StepOutcome::Downloaded { .. }) => true,
                    (ProvisionStep::DownloadingBinary, StepOutcome::DownloadFinished) => true,
                    (ProvisionStep::RunningInstaller, StepOutcome::InstallerExited { .. }) => true,
                    (ProvisionStep::WritingJvmArgs, StepOutcome::JvmArgsWritten) => true,
                    (ProvisionStep::WritingConfig, StepOutcome::ConfigWritten) => true,
                    _ => false,
                };
                if !expected {
                    return Some(Error::new(ErrorInner::InternalError, "Outcome does not match the provisioning step"));
                }
                match outcome {
                    StepOutcome::RuntimeExtracted { entries } => if *entries != 1 {
                        Some(archive_shape_failure(*entries))
                    } else {
                        None
                    },
                    StepOutcome::BinaryNotFound => Some(
                        no_build_failure(self.setup.flavour.kind(), self.setup.version.as_str()),
                    ),
                    StepOutcome::InstallerExited { success } => if !*success {
                        Some(Error::new(ErrorInner::FailedToExecute, "Failed to install forge server"))
                    } else {
                        None
                    },
                    _ => None,
                }
            },
        }
    }

    /// Who set the run off.
    pub fn caused_by(&self) -> (caused_by: &CausedBy)
        ensures
            caused_by@ == self@.caused_by,
    {
        &self.caused_by
    }

    /// The units that the run has reached.
    pub fn progress(&self) -> (progress: Progress)
        ensures
            progress == self@.progress(),
            self@.wf(),
            1 * THOUSANDTHS <= self@.position() <= TOTAL_PROGRESS * THOUSANDTHS,
    {
        proof {
            use_type_invariant(self);
            lemma_share_grows(self.download_done, self.download_done, self.download_total, RUNTIME_WEIGHT);
            lemma_share_grows(self.download_done, self.download_done, self.download_total, BINARY_WEIGHT);
        }
        let thousandths: u32 = match self.step {
            ProvisionStep::CreatingLayout => 1000,
            ProvisionStep::ResolvingRuntime => 1000,
            ProvisionStep::DownloadingRuntime => 1000 + share_of(
                self.download_done,
                self.download_total,
                RUNTIME_WEIGHT,
            ),
            ProvisionStep::ExtractingRuntime => 5000,
            ProvisionStep::InstallingRuntime => 5000,
            ProvisionStep::ResolvingBinary => 5000,
            ProvisionStep::DownloadingBinary => 5000 + share_of(
                self.download_done,
                self.download_total,
                BINARY_WEIGHT,
            ),
            ProvisionStep::RunningInstaller => 9000,
            ProvisionStep::WritingJvmArgs => 9000,
            _ => match self.flavour.kind() {
                FlavourKind::Forge => 10000,
                _ => 9000,
            },
        };
        Progress { thousandths }
    }

    fn update(&self, message: String) -> (events: Vec<Event>)
        ensures
            event_views(events@) == seq![EventView::update(self@.event_id, self@.progress(), message@)],
    {
        let mut events: Vec<Event> = Vec::new();
        events.push(Event::progression_update(self.event_id, self.progress(), message));
        events
    }

    /// Moves the run on by one outcome.
    ///
    /// The run, the action and the events after the outcome are those of
    /// the model: `next`, `action` and `events` of `ProvisioningView`.
    pub fn advance(&mut self, outcome: StepOutcome) -> (step: Step)
        ensures
            final(self)@.wf(),
            final(self)@ == old(self)@.next(outcome@),
            step.action == old(self)@.action(outcome@),
            event_views(step.events@) == old(self)@.events(outcome@),
    {
        proof {
            use_type_invariant(&*self);
        }
        if self.is_over() {
            return Step { action: ProvisionAction::Halt, events: Vec::new() };
        }
        match self.failure_for(&outcome) {
            Some(error) => {
                self.failure = Some(error);
                self.step = ProvisionStep::Failed;
                return Step { action: ProvisionAction::Rollback, events: Vec::new() };
            },
            None => {},
        }
        match outcome {
            StepOutcome::LayoutCreated => {
                self.step = ProvisionStep::ResolvingRuntime;
                Step { action: ProvisionAction::ResolveRuntime, events: Vec::new() }
            },
            StepOutcome::RuntimeResolved { url, major_version, cached } => {
                self.runtime_url = url;
                self.jre_major_version = major_version;
                self.download_done = 0;
                self.download_total = 0;
                if cached {
                    self.step = ProvisionStep::ResolvingBinary;
                    let events = self.update(String::from_str("2/4: JRE already downloaded"));
                    Step { action: ProvisionAction::ResolveBinary, events }
                } else {
                    self.step = ProvisionStep::DownloadingRuntime;
                    Step { action: ProvisionAction::DownloadRuntime, events: Vec::new() }
                }
            },
            StepOutcome::Downloaded { step: _, downloaded, total } => {
                let size: u64 = if self.download_total > 0 {
                    self.download_total
                } else {
                    match total {
                        Some(t) => t,
                        None => 0,
                    }
                };
                let done: u64 = if size == 0 || downloaded <= self.download_done {
                    self.download_done
                } else if downloaded >= size {
                    size
                } else {
                    downloaded
                };
                self.download_total = size;
                self.download_done = done;
                let message = match self.step {
                    ProvisionStep::DownloadingRuntime => runtime_download_text(downloaded, total),
                    _ => binary_download_text(self.setup.flavour.kind(), downloaded, total),
                };
                let events = self.update(message);
                Step { action: ProvisionAction::Continue, events }
            },
            StepOutcome::DownloadFinished => {
                match self.step {
                    ProvisionStep::DownloadingRuntime => {
                        self.step = ProvisionStep::ExtractingRuntime;
                        Step { action: ProvisionAction::ExtractRuntime, events: Vec::new() }
                    },
                    _ => {
                        match self.flavour.kind() {
                            FlavourKind::Forge => {
                                self.step = ProvisionStep::RunningInstaller;
                                let events = self.update(String::from_str("3/4: Installing Forge Server"));
                                Step { action: ProvisionAction::RunInstaller, events }
                            },
                            _ => {
                                self.step = ProvisionStep::WritingConfig;
                                let events = self.update(String::from_str("4/4: Finishing up"));
                                Step { action: ProvisionAction::WriteConfig, events }
                            },
                        }
                    },
                }
            },
            StepOutcome::RuntimeExtracted { .. } => {
                self.step = ProvisionStep::InstallingRuntime;
                Step { action: ProvisionAction::InstallRuntime, events: Vec::new() }
            },
            StepOutcome::RuntimeInstalled => {
                self.step = ProvisionStep::ResolvingBinary;
                Step { action: ProvisionAction::ResolveBinary, events: Vec::new() }
            },
            StepOutcome::BinaryResolved { url, flavour } => {
                self.binary_url = url;
                self.step = ProvisionStep::DownloadingBinary;
                self.flavour = flavour;
                self.download_done = 0;
                self.download_total = 0;
                Step { action: ProvisionAction::DownloadBinary, events: Vec::new() }
            },
            StepOutcome::InstallerExited { .. } => {
                self.step = ProvisionStep::WritingJvmArgs;
                Step { action: ProvisionAction::WriteJvmArgs, events: Vec::new() }
            },
            StepOutcome::JvmArgsWritten => {
                self.step = ProvisionStep::WritingConfig;
                let events = self.update(String::from_str("4/4: Finishing up"));
                Step { action: ProvisionAction::WriteConfig, events }
            },
            StepOutcome::ConfigWritten => {
                self.step = ProvisionStep::Done;
                Step { action: ProvisionAction::Finish, events: Vec::new() }
            },
            _ => Step { action: ProvisionAction::Halt, events: Vec::new() },
        }
    }
}

/// Every event of a run carries the number of the run, and no step changes
/// that number, the setup, the cause or the creation time.
pub proof fn lemma_events_share_the_run_id(run: ProvisioningView, outcome: StepOutcomeView)
    ensures
        forall|i: int|
            0 <= i < run.events(outcome).len() ==> (#[trigger] run.events(outcome)[i]).progression_id() == Some(
                run.event_id,
            ),
        forall|i: int|
            0 <= i < run.initial_events().len() ==> (#[trigger] run.initial_events()[i]).progression_id() == Some(
                run.event_id,
            ),
        run.next(outcome).event_id == run.event_id,
        run.next(outcome).setup == run.setup,
        run.next(outcome).caused_by == run.caused_by,
        run.next(outcome).creation_time == run.creation_time,
{
}

/// A run opens with exactly one start event, which announces ten units,
/// and with the update that reports the first of them. The steps publish
/// updates and nothing else, each with the units that the run has reached
/// by then: no step opens the progression again and none closes it.
pub proof fn lemma_steps_publish_updates(run: ProvisioningView, outcome: StepOutcomeView)
    ensures
        run.initial_events()[0].is_start(),
        run.initial_events()[0].event_inner->ProgressionEvent_progression_event_inner->ProgressionStart_total
            == Some(10u32),
        run.initial_events()[1].progress() == Some(Progress::units(1)),
        run.events(outcome).len() <= 1,
        forall|i: int|
            0 <= i < run.events(outcome).len() ==> (#[trigger] run.events(outcome)[i]).progress() == Some(
                run.next(outcome).progress(),
            ),
        run.events(outcome).len() > 0 ==> !run.next(outcome).step.is_terminal(),
{
}

/// A run only moves forward: no outcome takes it back to an earlier step.
pub proof fn lemma_run_moves_forward(run: ProvisioningView, outcome: StepOutcomeView)
    ensures
        run.next(outcome).step.rank() >= run.step.rank(),
{
}

/// A failure before the end of the run, whatever its kind, ends the run:
/// the action is the rollback of the instance's directory and the error is
/// kept, to be published when the run is handed back.
pub proof fn lemma_failure_rolls_back(run: ProvisioningView, outcome: StepOutcomeView)
    requires
        !run.step.is_terminal(),
        run.failure_of(outcome) is Some,
    ensures
        run.action(outcome) == ProvisionAction::Rollback,
        run.next(outcome).step == ProvisionStep::Failed,
        run.next(outcome).failure == run.failure_of(outcome),
        run.events(outcome) == Seq::<EventView>::empty(),
{
}

/// The configuration is written once, as the last thing before the run is
/// done: `WriteConfig` is asked for exactly when the run enters its last
/// step, `Finish` exactly when that write is confirmed, and a rollback
/// exactly when the run fails.
pub proof fn lemma_commit_point(run: ProvisioningView, outcome: StepOutcomeView)
    ensures
        run.action(outcome) == ProvisionAction::WriteConfig <==> run.step != ProvisionStep::WritingConfig
            && run.next(outcome).step == ProvisionStep::WritingConfig,
        run.action(outcome) == ProvisionAction::Finish <==> run.step == ProvisionStep::WritingConfig
            && outcome is ConfigWritten,
        run.action(outcome) == ProvisionAction::Finish <==> run.step != ProvisionStep::Done && run.next(
            outcome,
        ).step == ProvisionStep::Done,
        run.action(outcome) == ProvisionAction::Rollback <==> run.step != ProvisionStep::Failed && run.next(
            outcome,
        ).step == ProvisionStep::Failed,
{
}

/// A run that is over stays as it is: whatever is reported to it, it asks
/// for nothing and publishes nothing.
pub proof fn lemma_over_stays_over(run: ProvisioningView, outcomes: Seq<StepOutcomeView>)
    requires
        run.step.is_terminal(),
    ensures
        run.after(outcomes) == run,
        forall|i: int| 0 <= i < outcomes.len() ==> run.action_at(outcomes, i) == ProvisionAction::Halt,
        forall|i: int| 0 <= i < outcomes.len() ==> run.events_at(outcomes, i) == Seq::<EventView>::empty(),
    decreases outcomes.len(),
{
    if outcomes.len() > 0 {
        lemma_over_stays_over(run, outcomes.drop_last());
    }
    assert forall|i: int| 0 <= i < outcomes.len() implies run.action_at(outcomes, i) == ProvisionAction::Halt
        && run.events_at(outcomes, i) == Seq::<EventView>::empty() by {
        lemma_over_stays_over(run, outcomes.take(i));
    }
}

/// Reporting the first `i + 1` outcomes is reporting the first `i` and
/// then the one at position `i`.
pub proof fn lemma_after_prefix(run: ProvisioningView, outcomes: Seq<StepOutcomeView>, i: int)
    requires
        0 <= i < outcomes.len(),
    ensures
        run.after(outcomes.take(i + 1)) == run.after(outcomes.take(i)).next(outcomes[i]),
        run.after(outcomes.take(outcomes.len() as int)) == run.after(outcomes),
{
    assert(outcomes.take(i + 1).drop_last() =~= outcomes.take(i));
    assert(outcomes.take(outcomes.len() as int) =~= outcomes);
}

/// The step that a run has reached after some outcomes is no earlier than
/// the step it had reached after fewer of them.
pub proof fn lemma_prefix_is_no_later(run: ProvisioningView, outcomes: Seq<StepOutcomeView>, j: int, i: int)
    requires
        0 <= j <= i <= outcomes.len(),
    ensures
        run.after(outcomes.take(j)).step.rank() <= run.after(outcomes.take(i)).step.rank(),
    decreases i - j,
{
    if j < i {
        lemma_prefix_is_no_later(run, outcomes, j, i - 1);
        lemma_after_prefix(run, outcomes, i - 1);
        lemma_run_moves_forward(run.after(outcomes.take(i - 1)), outcomes[i - 1]);
    }
}

/// Once a run has failed it has failed for good.
pub proof fn lemma_failed_prefix_stays_failed(run: ProvisioningView, outcomes: Seq<StepOutcomeView>, j: int, i: int)
    requires
        0 <= j <= i <= outcomes.len(),
        run.after(outcomes.take(j)).step == ProvisionStep::Failed,
    ensures
        run.after(outcomes.take(i)) == run.after(outcomes.take(j)),
    decreases i - j,
{
    if j < i {
        lemma_failed_prefix_stays_failed(run, outcomes, j, i - 1);
        lemma_after_prefix(run, outcomes, i - 1);
    }
}

/// If the download or installation of the server binary fails, the
/// instance leaves nothing behind: the failure is answered by the rollback
/// of the directory that the first step created, the run ends as failed,
/// and at no point of the run, before the failure or after it, is the
/// configuration file asked to be written or the instance handed over.
pub proof fn lemma_failed_binary_step_leaves_nothing(run: ProvisioningView, outcomes: Seq<StepOutcomeView>, i: int)
    requires
        0 <= i < outcomes.len(),
        run.after(outcomes.take(i)).step.is_binary_step(),
        run.after(outcomes.take(i)).failure_of(outcomes[i]) is Some,
    ensures
        run.action_at(outcomes, i) == ProvisionAction::Rollback,
        run.after(outcomes).step == ProvisionStep::Failed,
        forall|j: int|
            0 <= j < outcomes.len() ==> #[trigger] run.action_at(outcomes, j) != ProvisionAction::WriteConfig
                && run.action_at(outcomes, j) != ProvisionAction::Finish,
{
    lemma_after_prefix(run, outcomes, i);
    lemma_failed_prefix_stays_failed(run, outcomes, i + 1, outcomes.len() as int);
    assert forall|j: int| 0 <= j < outcomes.len() implies #[trigger] run.action_at(outcomes, j)
        != ProvisionAction::WriteConfig && run.action_at(outcomes, j) != ProvisionAction::Finish by {
        let before = run.after(outcomes.take(j));
        if j < i {
            lemma_after_prefix(run, outcomes, j);
            lemma_prefix_is_no_later(run, outcomes, j + 1, i);
            lemma_commit_point(before, outcomes[j]);
        } else if j > i {
            lemma_failed_prefix_stays_failed(run, outcomes, i + 1, j);
        }
    }
}

/// Every step keeps a run well formed, and so does its beginning.
pub proof fn lemma_next_keeps_wf(run: ProvisioningView, outcome: StepOutcomeView)
    requires
        run.wf(),
    ensures
        run.next(outcome).wf(),
        ProvisioningView::initial(run.setup, run.event_id, run.caused_by, run.creation_time).wf(),
{
}

/// No outcome takes back what a run has reached: as long as the run is
/// not over, the units it has reached lie between the one of its first
/// update and the announced total, and they do not fall with any outcome.
pub proof fn lemma_position_never_falls(run: ProvisioningView, outcome: StepOutcomeView)
    requires
        run.wf(),
        !run.next(outcome).step.is_terminal(),
    ensures
        1 * THOUSANDTHS <= run.position() <= run.next(outcome).position() <= TOTAL_PROGRESS * THOUSANDTHS,
{
    let next = run.next(outcome);
    lemma_share_grows(run.download_done, run.download_done, run.download_total, RUNTIME_WEIGHT);
    lemma_share_grows(run.download_done, run.download_done, run.download_total, BINARY_WEIGHT);
    lemma_share_grows(next.download_done, next.download_done, next.download_total, RUNTIME_WEIGHT);
    lemma_share_grows(next.download_done, next.download_done, next.download_total, BINARY_WEIGHT);
    if outcome is Downloaded && next.download_total == run.download_total {
        lemma_share_grows(run.download_done, next.download_done, run.download_total, RUNTIME_WEIGHT);
        lemma_share_grows(run.download_done, next.download_done, run.download_total, BINARY_WEIGHT);
    }
}

/// What a run has reached after some outcomes is no less than what it had
/// reached after fewer of them, as long as it is not over.
pub proof fn lemma_position_of_prefixes(run: ProvisioningView, outcomes: Seq<StepOutcomeView>, j: int, i: int)
    requires
        run.wf(),
        0 <= j <= i <= outcomes.len(),
        !run.after(outcomes.take(i)).step.is_terminal(),
    ensures
        run.after(outcomes.take(j)).wf(),
        !run.after(outcomes.take(j)).step.is_terminal(),
        1 * THOUSANDTHS <= run.after(outcomes.take(j)).position() <= run.after(outcomes.take(i)).position()
            <= TOTAL_PROGRESS * THOUSANDTHS,
    decreases i,
{
    if i == 0 {
        assert(outcomes.take(0) =~= Seq::<StepOutcomeView>::empty());
        lemma_share_grows(run.download_done, run.download_done, run.download_total, RUNTIME_WEIGHT);
        lemma_share_grows(run.download_done, run.download_done, run.download_total, BINARY_WEIGHT);
    } else {
        lemma_after_prefix(run, outcomes, i - 1);
        let before = run.after(outcomes.take(i - 1));
        lemma_position_of_prefixes(run, outcomes, i - 1, i - 1);
        if j < i {
            lemma_position_of_prefixes(run, outcomes, j, i - 1);
        }
        lemma_position_never_falls(before, outcomes[i - 1]);
        lemma_next_keeps_wf(before, outcomes[i - 1]);
    }
}

/// The progress that the updates of a run report never decreases and
/// never exceeds the announced total: whatever is reported to the run and
/// in whatever order, an update reports at least the one unit of the
/// first update, at most ten units, and no less than any update that was
/// published before it.
pub proof fn lemma_progress_never_decreases(
    run: ProvisioningView,
    outcomes: Seq<StepOutcomeView>,
    i: int,
    j: int,
    earlier: EventView,
    later: EventView,
)
    requires
        run.wf(),
        0 <= i <= j < outcomes.len(),
        run.events_at(outcomes, i).contains(earlier),
        run.events_at(outcomes, j).contains(later),
    ensures
        earlier.progress() is Some,
        later.progress() is Some,
        Progress::units(1).thousandths <= earlier.progress()->Some_0.thousandths
            <= later.progress()->Some_0.thousandths <= Progress::units(TOTAL_PROGRESS).thousandths,
{
    lemma_after_prefix(run, outcomes, i);
    lemma_after_prefix(run, outcomes, j);
    lemma_steps_publish_updates(run.after(outcomes.take(i)), outcomes[i]);
    lemma_steps_publish_updates(run.after(outcomes.take(j)), outcomes[j]);
    lemma_position_of_prefixes(run, outcomes, i + 1, j + 1);
}

} // verus!
