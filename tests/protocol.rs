use xmtp_bindings::{
    bootstrap_outcome, error_of_step, plan_of, Action, Bootstrap, Operation, Run, RunState, Step,
    XmtpError,
};

fn drive(op: Operation, fail_at: Option<usize>) -> (Vec<Step>, Action) {
    let (mut run, first) = Run::start(op);
    let mut performed = vec![first];
    loop {
        let outcome = if fail_at == Some(performed.len() - 1) {
            Err(String::from("boom"))
        } else {
            Ok(())
        };
        match run.advance(outcome) {
            Action::Perform(s) => performed.push(s),
            end => return (performed, end),
        }
    }
}

#[test]
fn add_member_syncs_around_the_mutation() {
    let (steps, end) = drive(Operation::AddMember, None);
    assert_eq!(
        steps,
        vec![Step::SyncWelcomes, Step::ResolveGroup, Step::AddMembers, Step::SyncGroup]
    );
    assert_eq!(end, Action::Succeed);
}

#[test]
fn list_messages_syncs_group_before_reading() {
    assert_eq!(
        plan_of(Operation::ListMessages),
        vec![Step::SyncWelcomes, Step::ResolveGroup, Step::SyncGroup, Step::FindMessages]
    );
    assert_eq!(
        plan_of(Operation::ListMembers),
        vec![Step::SyncWelcomes, Step::ResolveGroup, Step::SyncGroup, Step::ListMembers]
    );
}

#[test]
fn list_groups_pulls_welcomes_first() {
    assert_eq!(plan_of(Operation::ListGroups), vec![Step::SyncWelcomes, Step::FindGroups]);
}

#[test]
fn create_group_adds_members_only_when_given() {
    let none: Vec<String> = Vec::new();
    let op = Operation::create_group(&none);
    assert_eq!(op, Operation::CreateGroup { with_members: false });
    assert_eq!(plan_of(op), vec![Step::CreateGroup, Step::SyncWelcomes]);
    let op = Operation::create_group(&vec![String::from("0xABC")]);
    assert_eq!(plan_of(op), vec![Step::CreateGroup, Step::AddMembers, Step::SyncWelcomes]);
}

#[test]
fn send_failure_stops_without_resync() {
    let (steps, end) = drive(Operation::SendMessage, Some(2));
    assert_eq!(steps, vec![Step::SyncWelcomes, Step::ResolveGroup, Step::SendMessage]);
    assert_eq!(end, Action::Fail(XmtpError::GroupError(String::from("boom"))));
}

#[test]
fn ended_run_stays_idle() {
    let (mut run, _) = Run::start(Operation::Sign);
    assert_eq!(run.advance(Err(String::from("bad signature"))), Action::Fail(XmtpError::ClientError(String::from("bad signature"))));
    assert_eq!(run.state(), RunState::Failed);
    assert_eq!(run.advance(Ok(())), Action::Idle);
    assert_eq!(run.state(), RunState::Failed);
    assert_eq!(run.step(), Step::RegisterIdentity);
    assert_eq!(run.op(), Operation::Sign);
}

#[test]
fn bootstrap_runs_connect_store_build() {
    let (steps, end) = drive(Operation::CreateClient, None);
    assert_eq!(steps, vec![Step::ConnectApi, Step::OpenStore, Step::BuildClient]);
    assert_eq!(end, Action::Succeed);
}

#[test]
fn wrong_key_fails_with_storage_error() {
    let (steps, end) = drive(Operation::CreateClient, Some(1));
    assert_eq!(steps, vec![Step::ConnectApi, Step::OpenStore]);
    match end {
        Action::Fail(e) => {
            assert_eq!(e, XmtpError::StorageError(String::from("boom")));
            assert!(e.is_transient());
        }
        other => panic!("unexpected {:?}", other),
    }
}

#[test]
fn each_step_fails_with_its_kind() {
    let d = || String::from("d");
    assert_eq!(error_of_step(Step::ConnectApi, d()), XmtpError::ApiError(d()));
    assert_eq!(error_of_step(Step::OpenStore, d()), XmtpError::StorageError(d()));
    assert_eq!(error_of_step(Step::BuildClient, d()), XmtpError::ClientBuilderError(d()));
    assert_eq!(error_of_step(Step::ResolveGroup, d()), XmtpError::ClientError(d()));
    assert_eq!(error_of_step(Step::SyncWelcomes, d()), XmtpError::ClientError(d()));
    assert_eq!(error_of_step(Step::SyncGroup, d()), XmtpError::GroupError(d()));
    assert_eq!(error_of_step(Step::RemoveMembers, d()), XmtpError::GroupError(d()));
}

#[test]
fn transient_kinds_are_network_and_storage() {
    let d = || String::from("x");
    assert!(XmtpError::ApiError(d()).is_transient());
    assert!(XmtpError::StorageError(d()).is_transient());
    assert!(!XmtpError::ClientBuilderError(d()).is_transient());
    assert!(!XmtpError::ClientError(d()).is_transient());
    assert!(!XmtpError::GroupError(d()).is_transient());
    assert!(!XmtpError::Generic(d()).is_transient());
    assert_eq!(XmtpError::Generic(d()).detail(), "x");
}

#[test]
fn bootstrap_without_text_is_ready() {
    assert_eq!(bootstrap_outcome(None), Bootstrap::Ready);
}

#[test]
fn bootstrap_with_text_requires_signature() {
    assert_eq!(
        bootstrap_outcome(Some(String::from("sign me"))),
        Bootstrap::RequiresSignature(String::from("sign me"))
    );
}
