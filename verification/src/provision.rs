//! OS-user provisioning: the step-by-step decisions behind resolving a
//! username to a uid, creating the account only when it does not exist.
//!
//! The surrounding process runs the demanded action (a subprocess or a
//! filesystem touch), feeds the outcome back as an event, and steps the
//! machine until it finishes or fails.

use vstd::prelude::*;

verus! {

/// Spec-level shape of a [`ProvisionState`].
pub enum ProvisionStateView {
    Start,
    CreateUser,
    MakeWorkspacesDir,
    ReadUid,
    EnableLinger { uid: Seq<char> },
    Done { uid: Seq<char> },
    Failed,
}

/// Where a provisioning run stands.
#[derive(Debug, Clone)]
pub enum ProvisionState {
    /// Nothing probed yet.
    Start,
    /// The account does not exist; it must be created.
    CreateUser,
    /// The account exists; its `workspaces/` folder must be made.
    MakeWorkspacesDir,
    /// The fresh account's uid must be read.
    ReadUid,
    /// User-lingering must be enabled for the resolved uid.
    EnableLinger { uid: String },
    /// The resolution finished with this uid.
    Done { uid: String },
    /// The account could not be provisioned.
    Failed,
}

impl View for ProvisionState {
    type V = ProvisionStateView;

    open spec fn view(&self) -> ProvisionStateView {
        match self {
            ProvisionState::Start => ProvisionStateView::Start,
            ProvisionState::CreateUser => ProvisionStateView::CreateUser,
            ProvisionState::MakeWorkspacesDir => ProvisionStateView::MakeWorkspacesDir,
            ProvisionState::ReadUid => ProvisionStateView::ReadUid,
            ProvisionState::EnableLinger { uid } => ProvisionStateView::EnableLinger { uid: uid@ },
            ProvisionState::Done { uid } => ProvisionStateView::Done { uid: uid@ },
            ProvisionState::Failed => ProvisionStateView::Failed,
        }
    }
}

/// Spec-level shape of a [`ProvisionEvent`].
pub enum ProvisionEventView {
    UidRead { uid: Seq<char> },
    UidReadFailed,
    UserAdded,
    UserAddFailed,
    WorkspacesDirMade,
    LingerEnabled,
}

/// What came back from the last demanded action.
#[derive(Debug, Clone)]
pub enum ProvisionEvent {
    /// `id -u {username}` succeeded with this (trimmed) uid.
    UidRead { uid: String },
    /// `id -u {username}` failed: no such account.
    UidReadFailed,
    /// `useradd` succeeded.
    UserAdded,
    /// `useradd` failed.
    UserAddFailed,
    /// The `workspaces/` folder was made (its outcome is not inspected).
    WorkspacesDirMade,
    /// Lingering was enabled (its outcome is not inspected).
    LingerEnabled,
}

impl View for ProvisionEvent {
    type V = ProvisionEventView;

    open spec fn view(&self) -> ProvisionEventView {
        match self {
            ProvisionEvent::UidRead { uid } => ProvisionEventView::UidRead { uid: uid@ },
            ProvisionEvent::UidReadFailed => ProvisionEventView::UidReadFailed,
            ProvisionEvent::UserAdded => ProvisionEventView::UserAdded,
            ProvisionEvent::UserAddFailed => ProvisionEventView::UserAddFailed,
            ProvisionEvent::WorkspacesDirMade => ProvisionEventView::WorkspacesDirMade,
            ProvisionEvent::LingerEnabled => ProvisionEventView::LingerEnabled,
        }
    }
}

/// Spec-level shape of a [`ProvisionAction`].
pub enum ProvisionActionView {
    RunReadUid,
    RunUserAdd,
    RunMakeWorkspacesDir,
    RunEnableLinger { uid: Seq<char> },
    Finish { uid: Seq<char> },
    Fail,
}

/// What the surrounding process must run next.
#[derive(Debug, Clone)]
pub enum ProvisionAction {
    /// Run `id -u {username}`.
    RunReadUid,
    /// Run `useradd {username} -d /home/{username} -m`.
    RunUserAdd,
    /// Run `mkdir /home/{username}/workspaces/` as the user.
    RunMakeWorkspacesDir,
    /// Run `loginctl enable-linger {uid}`.
    RunEnableLinger { uid: String },
    /// Hand the uid back; nothing is left to do.
    Finish { uid: String },
    /// Report the provisioning failure.
    Fail,
}

impl View for ProvisionAction {
    type V = ProvisionActionView;

    open spec fn view(&self) -> ProvisionActionView {
        match self {
            ProvisionAction::RunReadUid => ProvisionActionView::RunReadUid,
            ProvisionAction::RunUserAdd => ProvisionActionView::RunUserAdd,
            ProvisionAction::RunMakeWorkspacesDir => ProvisionActionView::RunMakeWorkspacesDir,
            ProvisionAction::RunEnableLinger { uid } => ProvisionActionView::RunEnableLinger {
                uid: uid@,
            },
            ProvisionAction::Finish { uid } => ProvisionActionView::Finish { uid: uid@ },
            ProvisionAction::Fail => ProvisionActionView::Fail,
        }
    }
}

/// The action each state demands.
pub open spec fn provision_action_spec(state: ProvisionStateView) -> ProvisionActionView {
    match state {
        ProvisionStateView::Start => ProvisionActionView::RunReadUid,
        ProvisionStateView::CreateUser => ProvisionActionView::RunUserAdd,
        ProvisionStateView::MakeWorkspacesDir => ProvisionActionView::RunMakeWorkspacesDir,
        ProvisionStateView::ReadUid => ProvisionActionView::RunReadUid,
        ProvisionStateView::EnableLinger { uid } => ProvisionActionView::RunEnableLinger { uid },
        ProvisionStateView::Done { uid } => ProvisionActionView::Finish { uid },
        ProvisionStateView::Failed => ProvisionActionView::Fail,
    }
}

/// One step of the machine.  The first successful uid probe finishes the run
/// at once; a failed first probe leads through account creation, the
/// `workspaces/` folder, a second probe, and lingering.  An event that does
/// not answer the state's demand changes nothing.
pub open spec fn provision_step_spec(
    state: ProvisionStateView,
    event: ProvisionEventView,
) -> ProvisionStateView {
    match (state, event) {
        (ProvisionStateView::Start, ProvisionEventView::UidRead { uid }) =>
            ProvisionStateView::Done { uid },
        (ProvisionStateView::Start, ProvisionEventView::UidReadFailed) =>
            ProvisionStateView::CreateUser,
        (ProvisionStateView::CreateUser, ProvisionEventView::UserAdded) =>
            ProvisionStateView::MakeWorkspacesDir,
        (ProvisionStateView::CreateUser, ProvisionEventView::UserAddFailed) =>
            ProvisionStateView::Failed,
        (ProvisionStateView::MakeWorkspacesDir, ProvisionEventView::WorkspacesDirMade) =>
            ProvisionStateView::ReadUid,
        (ProvisionStateView::ReadUid, ProvisionEventView::UidRead { uid }) =>
            ProvisionStateView::EnableLinger { uid },
        (ProvisionStateView::ReadUid, ProvisionEventView::UidReadFailed) =>
            ProvisionStateView::Failed,
        (ProvisionStateView::EnableLinger { uid }, ProvisionEventView::LingerEnabled) =>
            ProvisionStateView::Done { uid },
        (s, _) => s,
    }
}

/// The action a state demands, as `provision_action_spec` says.
pub fn provision_action(state: &ProvisionState) -> (r: ProvisionAction)
    ensures
        r@ == provision_action_spec(state@),
{
    match state {
        ProvisionState::Start => ProvisionAction::RunReadUid,
        ProvisionState::CreateUser => ProvisionAction::RunUserAdd,
        ProvisionState::MakeWorkspacesDir => ProvisionAction::RunMakeWorkspacesDir,
        ProvisionState::ReadUid => ProvisionAction::RunReadUid,
        ProvisionState::EnableLinger { uid } => ProvisionAction::RunEnableLinger {
            uid: uid.clone(),
        },
        ProvisionState::Done { uid } => ProvisionAction::Finish { uid: uid.clone() },
        ProvisionState::Failed => ProvisionAction::Fail,
    }
}

/// Steps the machine, as `provision_step_spec` says.
pub fn provision_step(state: ProvisionState, event: ProvisionEvent) -> (r: ProvisionState)
    ensures
        r@ == provision_step_spec(state@, event@),
{
    match (state, event) {
        (ProvisionState::Start, ProvisionEvent::UidRead { uid }) => ProvisionState::Done { uid },
        (ProvisionState::Start, ProvisionEvent::UidReadFailed) => ProvisionState::CreateUser,
        (ProvisionState::CreateUser, ProvisionEvent::UserAdded) =>
            ProvisionState::MakeWorkspacesDir,
        (ProvisionState::CreateUser, ProvisionEvent::UserAddFailed) => ProvisionState::Failed,
        (ProvisionState::MakeWorkspacesDir, ProvisionEvent::WorkspacesDirMade) =>
            ProvisionState::ReadUid,
        (ProvisionState::ReadUid, ProvisionEvent::UidRead { uid }) => ProvisionState::EnableLinger {
            uid,
        },
        (ProvisionState::ReadUid, ProvisionEvent::UidReadFailed) => ProvisionState::Failed,
        (ProvisionState::EnableLinger { uid }, ProvisionEvent::LingerEnabled) =>
            ProvisionState::Done { uid },
        (s, _) => s,
    }
}

/// Resolution is idempotent and creates the account at most once: an
/// account that already answers the uid probe finishes the run immediately
/// with that uid, and the only state that ever demands `useradd` is the one
/// reached by a failed first probe.
pub proof fn lemma_resolve_existing_user_creates_nothing(uid: Seq<char>)
    ensures
        provision_step_spec(
            ProvisionStateView::Start,
            ProvisionEventView::UidRead { uid },
        ) == (ProvisionStateView::Done { uid }),
        provision_action_spec(ProvisionStateView::Done { uid }) == (ProvisionActionView::Finish {
            uid,
        }),
        forall|s: ProvisionStateView| #[trigger]
            provision_action_spec(s) == ProvisionActionView::RunUserAdd ==> s
                == ProvisionStateView::CreateUser,
        forall|s: ProvisionStateView, e: ProvisionEventView| #[trigger]
            provision_step_spec(s, e) == ProvisionStateView::CreateUser ==> (s
                == ProvisionStateView::Start && e == ProvisionEventView::UidReadFailed) || s
                == ProvisionStateView::CreateUser,
{
}

} // verus!
