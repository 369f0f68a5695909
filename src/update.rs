//! The update commands as a state machine. The host runs the outside work
//! (obtaining the updater, querying for a release, downloading and installing
//! it) and hands each outcome back as an event; the session decides what to do
//! next and, at the end, what to answer the webview.

use vstd::prelude::*;

verus! {

/// The two update commands that the webview can invoke.
#[derive(Clone, Copy, Debug, PartialEq, Eq, Structural)]
pub enum UpdateCommand {
    /// Report the version of an available release, if any.
    CheckForUpdate,
    /// Download and install the available release.
    InstallUpdate,
}

/// Where a session stands.
#[derive(Clone, Copy, Debug, PartialEq, Eq, Structural)]
pub enum UpdatePhase {
    /// Waiting to learn whether the updater can be obtained.
    Start,
    /// Waiting for the outcome of the query for a release.
    Checking,
    /// Waiting for the outcome of the download and install.
    Installing,
    /// The reply has been given; no further event is taken.
    Finished,
}

/// An outcome of outside work, handed to the session.
#[derive(Debug, PartialEq, Eq)]
pub enum UpdateEvent {
    /// The updater was obtained.
    UpdaterReady,
    /// The updater cannot be had (an unsupported platform or build).
    UpdaterUnavailable,
    /// The query found a newer release with this version.
    Found(String),
    /// The query found no newer release.
    UpToDate,
    /// The query failed with this message.
    CheckFailed(String),
    /// The release was downloaded and installed.
    Installed,
    /// The download or the install failed with this message.
    InstallFailed(String),
}

/// What the host does next.
#[derive(Debug, PartialEq, Eq)]
pub enum UpdateAction {
    /// Query the updater for a newer release.
    Check,
    /// Download and install the release that the query found.
    DownloadAndInstall,
    /// Answer a check with the version found, or with none.
    ReplyVersion(Option<String>),
    /// Answer an install with success.
    ReplyInstalled,
    /// Answer with this error message.
    ReplyError(String),
}

/// The mathematical value of an event: its messages as character sequences.
pub enum EventView {
    UpdaterReady,
    UpdaterUnavailable,
    Found(Seq<char>),
    UpToDate,
    CheckFailed(Seq<char>),
    Installed,
    InstallFailed(Seq<char>),
}

/// The mathematical value of an action.
pub enum ActionView {
    Check,
    DownloadAndInstall,
    ReplyVersion(Option<Seq<char>>),
    ReplyInstalled,
    ReplyError(Seq<char>),
}

impl View for UpdateEvent {
    type V = EventView;

    open spec fn view(&self) -> EventView {
        match self {
            UpdateEvent::UpdaterReady => EventView::UpdaterReady,
            UpdateEvent::UpdaterUnavailable => EventView::UpdaterUnavailable,
            UpdateEvent::Found(v) => EventView::Found(v@),
            UpdateEvent::UpToDate => EventView::UpToDate,
            UpdateEvent::CheckFailed(m) => EventView::CheckFailed(m@),
            UpdateEvent::Installed => EventView::Installed,
            UpdateEvent::InstallFailed(m) => EventView::InstallFailed(m@),
        }
    }
}

impl View for UpdateAction {
    type V = ActionView;

    open spec fn view(&self) -> ActionView {
        match self {
            UpdateAction::Check => ActionView::Check,
            UpdateAction::DownloadAndInstall => ActionView::DownloadAndInstall,
            UpdateAction::ReplyVersion(v) => ActionView::ReplyVersion(
                match v {
                    Some(s) => Some(s@),
                    None => None,
                },
            ),
            UpdateAction::ReplyInstalled => ActionView::ReplyInstalled,
            UpdateAction::ReplyError(m) => ActionView::ReplyError(m@),
        }
    }
}

/// The error answered when the updater cannot be had.
pub open spec fn updater_unavailable_message() -> Seq<char> {
    "Updater not available"@
}

/// The error answered when an install finds no newer release.
pub open spec fn no_update_message() -> Seq<char> {
    "No update available"@
}

/// Whether a session in `phase` takes the event `e`.
pub open spec fn accepts(phase: UpdatePhase, e: EventView) -> bool {
    match phase {
        UpdatePhase::Start => e is UpdaterReady || e is UpdaterUnavailable,
        UpdatePhase::Checking => e is Found || e is UpToDate || e is CheckFailed,
        UpdatePhase::Installing => e is Installed || e is InstallFailed,
        UpdatePhase::Finished => false,
    }
}

/// The next phase and the action of a session of `command` in `phase` on the
/// event `e`, for an event that the phase takes.
pub open spec fn transition(command: UpdateCommand, phase: UpdatePhase, e: EventView) -> (
    UpdatePhase,
    ActionView,
) {
    match e {
        EventView::UpdaterReady => (UpdatePhase::Checking, ActionView::Check),
        EventView::UpdaterUnavailable => (
            UpdatePhase::Finished,
            ActionView::ReplyError(updater_unavailable_message()),
        ),
        EventView::Found(v) => match command {
            UpdateCommand::CheckForUpdate => (
                UpdatePhase::Finished,
                ActionView::ReplyVersion(Some(v)),
            ),
            UpdateCommand::InstallUpdate => (UpdatePhase::Installing, ActionView::DownloadAndInstall),
        },
        EventView::UpToDate => match command {
            UpdateCommand::CheckForUpdate => (UpdatePhase::Finished, ActionView::ReplyVersion(None)),
            UpdateCommand::InstallUpdate => (
                UpdatePhase::Finished,
                ActionView::ReplyError(no_update_message()),
            ),
        },
        EventView::CheckFailed(m) => (UpdatePhase::Finished, ActionView::ReplyError(m)),
        EventView::Installed => (UpdatePhase::Finished, ActionView::ReplyInstalled),
        EventView::InstallFailed(m) => (UpdatePhase::Finished, ActionView::ReplyError(m)),
    }
}

/// Whether a session of `command` can stand in `phase`: only an install
/// downloads, so a check never waits on an install.
pub open spec fn can_be_in(command: UpdateCommand, phase: UpdatePhase) -> bool {
    command == UpdateCommand::CheckForUpdate ==> phase != UpdatePhase::Installing
}

/// Whether an action is the reply to the webview.
pub open spec fn is_reply(a: ActionView) -> bool {
    a is ReplyVersion || a is ReplyInstalled || a is ReplyError
}

/// One run of an update command, from obtaining the updater to the reply.
#[derive(Clone, Copy, Debug, PartialEq, Eq, Structural)]
pub struct UpdateSession {
    pub command: UpdateCommand,
    pub phase: UpdatePhase,
}

impl UpdateSession {
    /// The session's invariant.
    pub open spec fn wf(&self) -> bool {
        can_be_in(self.command, self.phase)
    }

    /// A session of `command` that waits to learn whether the updater can be had.
    pub fn new(command: UpdateCommand) -> (s: UpdateSession)
        ensures
            s.command == command,
            s.phase == UpdatePhase::Start,
            s.wf(),
    {
        UpdateSession { command, phase: UpdatePhase::Start }
    }

    /// Whether the session takes the event `e` in its current phase.
    pub fn accepts(&self, e: &UpdateEvent) -> (r: bool)
        ensures
            r == accepts(self.phase, e@),
    {
        match self.phase {
            UpdatePhase::Start => matches!(e, UpdateEvent::UpdaterReady | UpdateEvent::UpdaterUnavailable),
            UpdatePhase::Checking => matches!(
                e,
                UpdateEvent::Found(_) | UpdateEvent::UpToDate | UpdateEvent::CheckFailed(_)
            ),
            UpdatePhase::Installing => matches!(
                e,
                UpdateEvent::Installed | UpdateEvent::InstallFailed(_)
            ),
            UpdatePhase::Finished => false,
        }
    }

    /// Whether the reply has been given.
    pub fn is_finished(&self) -> (r: bool)
        ensures
            r == (self.phase == UpdatePhase::Finished),
    {
        matches!(self.phase, UpdatePhase::Finished)
    }

    /// Takes the outcome `e` of the outside work and returns what the host does
    /// next: more outside work, or the reply to the webview.
    pub fn step(&mut self, e: UpdateEvent) -> (a: UpdateAction)
        requires
            old(self).wf(),
            accepts(old(self).phase, e@),
        ensures
            final(self).wf(),
            final(self).command == old(self).command,
            (final(self).phase, a@) == transition(old(self).command, old(self).phase, e@),
    {
        match e {
            UpdateEvent::UpdaterReady => {
                self.phase = UpdatePhase::Checking;
                UpdateAction::Check
            },
            UpdateEvent::UpdaterUnavailable => {
                self.phase = UpdatePhase::Finished;
                UpdateAction::ReplyError(String::from_str("Updater not available"))
            },
            UpdateEvent::Found(v) => match self.command {
                UpdateCommand::CheckForUpdate => {
                    self.phase = UpdatePhase::Finished;
                    UpdateAction::ReplyVersion(Some(v))
                },
                UpdateCommand::InstallUpdate => {
                    self.phase = UpdatePhase::Installing;
                    UpdateAction::DownloadAndInstall
                },
            },
            UpdateEvent::UpToDate => {
                self.phase = UpdatePhase::Finished;
                match self.command {
                    UpdateCommand::CheckForUpdate => UpdateAction::ReplyVersion(None),
                    UpdateCommand::InstallUpdate => UpdateAction::ReplyError(
                        String::from_str("No update available"),
                    ),
                }
            },
            UpdateEvent::CheckFailed(m) => {
                self.phase = UpdatePhase::Finished;
                UpdateAction::ReplyError(m)
            },
            UpdateEvent::Installed => {
                self.phase = UpdatePhase::Finished;
                UpdateAction::ReplyInstalled
            },
            UpdateEvent::InstallFailed(m) => {
                self.phase = UpdatePhase::Finished;
                UpdateAction::ReplyError(m)
            },
        }
    }
}

/// A check for an update answers with exactly one of three things: the
/// version that the query found (non-empty when the updater reported a
/// non-empty version), no update, or an error. It never asks for a download,
/// and once it has answered it takes no further event.
pub proof fn lemma_check_answers_once(phase: UpdatePhase, e: EventView)
    requires
        can_be_in(UpdateCommand::CheckForUpdate, phase),
        accepts(phase, e),
        e matches EventView::Found(v) ==> v.len() > 0,
    ensures
        ({
            let (next, a) = transition(UpdateCommand::CheckForUpdate, phase, e);
            &&& (a !is DownloadAndInstall)
            &&& (a !is ReplyInstalled)
            &&& (is_reply(a) <==> next == UpdatePhase::Finished)
            &&& (is_reply(a) ==> forall|e2: EventView| !accepts(next, e2))
            &&& (a matches ActionView::ReplyVersion(Some(v)) ==> v.len() > 0 && e == EventView::Found(v))
            &&& (a == ActionView::ReplyVersion(None) <==> e is UpToDate)
            &&& (a is ReplyError <==> (e is UpdaterUnavailable || e is CheckFailed))
        }),
{
}

/// An install that finds no newer release answers "No update available" and
/// finishes, taking no further event, so it never asks for a download; a
/// download is asked for exactly when the query found a release.
pub proof fn lemma_install_without_update(phase: UpdatePhase, e: EventView)
    requires
        accepts(phase, e),
    ensures
        ({
            let (next, a) = transition(UpdateCommand::InstallUpdate, phase, e);
            &&& (e is UpToDate ==> next == UpdatePhase::Finished)
            &&& (e is UpToDate ==> a == ActionView::ReplyError(no_update_message()))
            &&& (e is UpToDate ==> forall|e2: EventView| !accepts(next, e2))
            &&& (a is DownloadAndInstall <==> e is Found)
        }),
{
}

} // verus!
