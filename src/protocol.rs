use vstd::prelude::*;

use crate::error::XmtpError;

verus! {

/// One call into a collaborator (the network client, the encrypted store, or
/// the group engine) that an operation performs.
#[derive(Clone, Copy, Debug, PartialEq, Eq, Structural)]
pub enum Step {
    /// Open the network handle to the host.
    ConnectApi,
    /// Open or create the encrypted local store.
    OpenStore,
    /// Resolve or create the identity and build the client.
    BuildClient,
    /// Register the identity remotely with the caller's signature.
    RegisterIdentity,
    /// Pull pending welcomes (new groups, membership changes) into local state.
    SyncWelcomes,
    /// Create a new group owned by this identity.
    CreateGroup,
    /// Look the group up by its id in local state.
    ResolveGroup,
    /// Add accounts to the group.
    AddMembers,
    /// Remove accounts from the group.
    RemoveMembers,
    /// Publish an application payload to the group.
    SendMessage,
    /// Pull the group's pending remote state into local state.
    SyncGroup,
    /// Read the locally known groups.
    FindGroups,
    /// Read the group's current membership.
    ListMembers,
    /// Read the group's stored messages.
    FindMessages,
}

/// The operations of the client core.
#[derive(Clone, Copy, Debug, PartialEq, Eq, Structural)]
pub enum Operation {
    CreateClient,
    Sign,
    ListGroups,
    CreateGroup { with_members: bool },
    ListMembers,
    AddMember,
    RemoveMember,
    SendMessage,
    ListMessages,
}

/// The calls an operation makes, in order.
pub open spec fn plan(op: Operation) -> Seq<Step> {
    match op {
        Operation::CreateClient => seq![Step::ConnectApi, Step::OpenStore, Step::BuildClient],
        Operation::Sign => seq![Step::RegisterIdentity],
        Operation::ListGroups => seq![Step::SyncWelcomes, Step::FindGroups],
        Operation::CreateGroup { with_members } => if with_members {
            seq![Step::CreateGroup, Step::AddMembers, Step::SyncWelcomes]
        } else {
            seq![Step::CreateGroup, Step::SyncWelcomes]
        },
        Operation::ListMembers => seq![
            Step::SyncWelcomes,
            Step::ResolveGroup,
            Step::SyncGroup,
            Step::ListMembers,
        ],
        Operation::AddMember => seq![
            Step::SyncWelcomes,
            Step::ResolveGroup,
            Step::AddMembers,
            Step::SyncGroup,
        ],
        Operation::RemoveMember => seq![
            Step::SyncWelcomes,
            Step::ResolveGroup,
            Step::RemoveMembers,
            Step::SyncGroup,
        ],
        Operation::SendMessage => seq![
            Step::SyncWelcomes,
            Step::ResolveGroup,
            Step::SendMessage,
            Step::SyncGroup,
        ],
        Operation::ListMessages => seq![
            Step::SyncWelcomes,
            Step::ResolveGroup,
            Step::SyncGroup,
            Step::FindMessages,
        ],
    }
}

pub open spec fn is_sync(s: Step) -> bool {
    s == Step::SyncWelcomes || s == Step::SyncGroup
}

/// Steps that change a group's state.
pub open spec fn is_group_mutation(s: Step) -> bool {
    s == Step::CreateGroup || s == Step::AddMembers || s == Step::RemoveMembers || s
        == Step::SendMessage
}

/// Steps that read state the client already holds locally.
pub open spec fn reads_local_state(s: Step) -> bool {
    s == Step::FindGroups || s == Step::ResolveGroup
}

/// Steps that read a group's own state.
pub open spec fn reads_group_state(s: Step) -> bool {
    s == Step::ListMembers || s == Step::FindMessages
}

/// The error a failed step surfaces, by the collaborator that failed.
pub open spec fn error_for(step: Step, detail: String) -> XmtpError {
    match step {
        Step::ConnectApi => XmtpError::ApiError(detail),
        Step::OpenStore => XmtpError::StorageError(detail),
        Step::BuildClient => XmtpError::ClientBuilderError(detail),
        Step::RegisterIdentity | Step::SyncWelcomes | Step::CreateGroup | Step::ResolveGroup
        | Step::FindGroups => XmtpError::ClientError(detail),
        _ => XmtpError::GroupError(detail),
    }
}

impl Operation {
    /// The group-creation operation for the given initial members: members are
    /// added only when there are any.
    pub fn create_group(account_addresses: &Vec<String>) -> (r: Operation)
        ensures
            r == (Operation::CreateGroup { with_members: account_addresses.len() > 0 }),
    {
        Operation::CreateGroup { with_members: account_addresses.len() > 0 }
    }
}

/// The calls that `op` makes, in order.
pub fn plan_of(op: Operation) -> (r: Vec<Step>)
    ensures
        r@ == plan(op),
{
    let mut v: Vec<Step> = Vec::new();
    match op {
        Operation::CreateClient => {
            v.push(Step::ConnectApi);
            v.push(Step::OpenStore);
            v.push(Step::BuildClient);
        },
        Operation::Sign => {
            v.push(Step::RegisterIdentity);
        },
        Operation::ListGroups => {
            v.push(Step::SyncWelcomes);
            v.push(Step::FindGroups);
        },
        Operation::CreateGroup { with_members } => {
            v.push(Step::CreateGroup);
            if with_members {
                v.push(Step::AddMembers);
            }
            v.push(Step::SyncWelcomes);
        },
        Operation::ListMembers => {
            v.push(Step::SyncWelcomes);
            v.push(Step::ResolveGroup);
            v.push(Step::SyncGroup);
            v.push(Step::ListMembers);
        },
        Operation::AddMember => {
            v.push(Step::SyncWelcomes);
            v.push(Step::ResolveGroup);
            v.push(Step::AddMembers);
            v.push(Step::SyncGroup);
        },
        Operation::RemoveMember => {
            v.push(Step::SyncWelcomes);
            v.push(Step::ResolveGroup);
            v.push(Step::RemoveMembers);
            v.push(Step::SyncGroup);
        },
        Operation::SendMessage => {
            v.push(Step::SyncWelcomes);
            v.push(Step::ResolveGroup);
            v.push(Step::SendMessage);
            v.push(Step::SyncGroup);
        },
        Operation::ListMessages => {
            v.push(Step::SyncWelcomes);
            v.push(Step::ResolveGroup);
            v.push(Step::SyncGroup);
            v.push(Step::FindMessages);
        },
    }
    assert(v@ =~= plan(op));
    v
}

/// The error that a failure of `step` surfaces.
pub fn error_of_step(step: Step, detail: String) -> (e: XmtpError)
    ensures
        e == error_for(step, detail),
{
    match step {
        Step::ConnectApi => XmtpError::ApiError(detail),
        Step::OpenStore => XmtpError::StorageError(detail),
        Step::BuildClient => XmtpError::ClientBuilderError(detail),
        Step::RegisterIdentity | Step::SyncWelcomes | Step::CreateGroup | Step::ResolveGroup
        | Step::FindGroups => XmtpError::ClientError(detail),
        _ => XmtpError::GroupError(detail),
    }
}

/// Sync before operate: an operation that reads local state first pulls
/// pending welcomes, and does so before anything else.
pub proof fn lemma_sync_before_local_reads(op: Operation, i: int)
    requires
        0 <= i < plan(op).len(),
        reads_local_state(plan(op)[i]),
    ensures
        plan(op)[0] == Step::SyncWelcomes,
        0 < i,
{
}

/// A group's own state is read only right after that group was synchronized.
pub proof fn lemma_group_reads_follow_group_sync(op: Operation, i: int)
    requires
        0 <= i < plan(op).len(),
        reads_group_state(plan(op)[i]),
    ensures
        0 < i,
        plan(op)[i - 1] == Step::SyncGroup,
        plan(op)[0] == Step::SyncWelcomes,
{
}

/// Every mutation is followed by a sync, and an operation that mutates ends
/// with a sync, so its caller observes the canonical post-mutation state.
pub proof fn lemma_mutations_are_resynced(op: Operation, i: int)
    requires
        0 <= i < plan(op).len(),
        is_group_mutation(plan(op)[i]),
    ensures
        i + 1 < plan(op).len(),
        is_sync(plan(op).last()),
        forall|j: int| i < j < plan(op).len() ==> !is_group_mutation(#[trigger] plan(op)[j])
            || plan(op)[j] == Step::AddMembers,
{
}

/// Bootstrap opens the encrypted store before it resolves any identity, and a
/// failure to open it (a wrong key for an existing store, for one) surfaces
/// as a storage error, not as a build of a fresh identity.
pub proof fn lemma_store_failure_is_storage_error(i: int, detail: String)
    requires
        0 <= i < plan(Operation::CreateClient).len(),
        plan(Operation::CreateClient)[i] == Step::OpenStore,
    ensures
        forall|j: int| i < j < plan(Operation::CreateClient).len() ==> #[trigger] plan(Operation::CreateClient)[j] == Step::BuildClient,
        error_for(Step::OpenStore, detail) == XmtpError::StorageError(detail),
        error_for(Step::OpenStore, detail).transient(),
{
}

/// Where a run of an operation stands.
#[derive(Clone, Copy, Debug, PartialEq, Eq, Structural)]
pub enum RunState {
    /// The step at the current position is being performed.
    Running,
    /// Every step succeeded.
    Succeeded,
    /// The step at the current position failed; nothing more is performed.
    Failed,
}

/// What the driver of a run does next.
#[derive(Clone, Debug, PartialEq, Eq)]
pub enum Action {
    /// Perform this step and report its outcome.
    Perform(Step),
    /// The operation completed.
    Succeed,
    /// The operation failed with this error; no retry is made.
    Fail(XmtpError),
    /// The run has already ended; nothing is to be done.
    Idle,
}

/// One execution of an operation: which step is under way and whether the
/// run has ended.
pub struct Run {
    op: Operation,
    at: usize,
    state: RunState,
}

impl Run {
    pub closed spec fn operation(self) -> Operation {
        self.op
    }

    pub closed spec fn position(self) -> int {
        self.at as int
    }

    pub closed spec fn status(self) -> RunState {
        self.state
    }

    #[verifier::type_invariant]
    spec fn well_formed(self) -> bool {
        self.at < plan(self.op).len()
    }

    /// The step at the run's current position.
    pub open spec fn current_step(self) -> Step {
        plan(self.operation())[self.position()]
    }

    /// Starts a run of `op`; the returned step is the first to perform.
    pub fn start(op: Operation) -> (r: (Run, Step))
        ensures
            r.0.operation() == op,
            r.0.position() == 0,
            r.0.status() == RunState::Running,
            r.1 == plan(op)[0],
            r.1 == r.0.current_step(),
    {
        let steps = plan_of(op);
        let first = steps[0];
        (Run { op, at: 0, state: RunState::Running }, first)
    }

    /// The operation this run executes.
    pub fn op(&self) -> (r: Operation)
        ensures
            r == self.operation(),
    {
        self.op
    }

    /// Where the run stands.
    pub fn state(&self) -> (r: RunState)
        ensures
            r == self.status(),
    {
        self.state
    }

    /// The step at the run's current position.
    pub fn step(&self) -> (r: Step)
        ensures
            r == self.current_step(),
    {
        proof {
            use_type_invariant(self);
        }
        let steps = plan_of(self.op);
        steps[self.at]
    }

    /// Records the outcome of the step under way and says what to do next.
    /// A failure ends the run with the error of the step that failed; a
    /// success moves on to the next step, or completes the run after the last.
    pub fn advance(&mut self, outcome: Result<(), String>) -> (a: Action)
        ensures
            final(self).operation() == old(self).operation(),
            old(self).status() != RunState::Running ==> *final(self) == *old(self) && a
                == Action::Idle,
            old(self).status() == RunState::Running ==> match outcome {
                Err(d) => {
                    &&& a == Action::Fail(error_for(old(self).current_step(), d))
                    &&& final(self).status() == RunState::Failed
                    &&& final(self).position() == old(self).position()
                },
                Ok(_) => if old(self).position() + 1 == plan(old(self).operation()).len() {
                    &&& a == Action::Succeed
                    &&& final(self).status() == RunState::Succeeded
                    &&& final(self).position() == old(self).position()
                } else {
                    &&& final(self).status() == RunState::Running
                    &&& final(self).position() == old(self).position() + 1
                    &&& a == Action::Perform(final(self).current_step())
                },
            },
    {
        proof {
            use_type_invariant(&*self);
        }
        match self.state {
            RunState::Running => {},
            _ => {
                return Action::Idle;
            },
        }
        let steps = plan_of(self.op);
        match outcome {
            Err(d) => {
                self.state = RunState::Failed;
                Action::Fail(error_of_step(steps[self.at], d))
            },
            Ok(_) => {
                if self.at + 1 == steps.len() {
                    self.state = RunState::Succeeded;
                    Action::Succeed
                } else {
                    self.at = self.at + 1;
                    Action::Perform(steps[self.at])
                }
            },
        }
    }
}

} // verus!
