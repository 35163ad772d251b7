use std::time::SystemTime;

use augrim::algorithm::two_phase_commit::{
    CoordinatorContext, CoordinatorState, Participant, ParticipantContext, ParticipantState,
    TwoPhaseCommitContext, TwoPhaseCommitContextBuilder, TwoPhaseCommitRoleContext,
    TwoPhaseCommitState,
};
use augrim::process::Process;
use augrim::time::Time;

#[derive(Clone, Copy, Debug, PartialEq, Eq)]
struct Name(&'static str);

impl Process for Name {}

impl From<&'static str> for Name {
    fn from(name: &'static str) -> Self {
        Name(name)
    }
}

impl PartialEq<String> for Name {
    fn eq(&self, other: &String) -> bool {
        self.0 == other.as_str()
    }
}

#[derive(Clone, Copy, Debug, PartialEq)]
struct Stamp(SystemTime);

impl Time for Stamp {}

impl PartialEq<SystemTime> for Stamp {
    fn eq(&self, other: &SystemTime) -> bool {
        self.0 == *other
    }
}

fn full_builder() -> TwoPhaseCommitContextBuilder<Name, Stamp> {
    TwoPhaseCommitContextBuilder::<Name, Stamp>::new()
        .with_coordinator("me".into())
        .with_epoch(2)
        .with_state(TwoPhaseCommitState::WaitingForVote)
        .with_this_process("me".into())
}

#[test]
fn build_coordinator_context() {
    let now = SystemTime::now();

    let unified_context = TwoPhaseCommitContextBuilder::<Name, Stamp>::new()
        .with_alarm(Stamp(now))
        .with_coordinator("me".into())
        .with_epoch(2)
        .with_last_commit_epoch(1)
        .with_state(TwoPhaseCommitState::WaitingForStart)
        .with_this_process("me".into())
        .with_participants(vec![
            Participant::new("me".into()),
            Participant::new("p1".into()),
            Participant::new("p2".into()),
        ])
        .build()
        .unwrap();

    let coordinator_context: TwoPhaseCommitContext<_, _, CoordinatorContext<_, _>> =
        unified_context.try_into().unwrap();

    assert_eq!(coordinator_context.alarm().unwrap(), now);
    assert_eq!(*coordinator_context.coordinator(), "me".to_string());
    assert_eq!(*coordinator_context.epoch(), 2);
    assert_eq!(coordinator_context.last_commit_epoch().unwrap(), 1);
    assert_eq!(
        *coordinator_context.state(),
        CoordinatorState::WaitingForStart
    );
    assert_eq!(coordinator_context.participants().len(), 3);

    let reunified_context: TwoPhaseCommitContext<_, _, TwoPhaseCommitRoleContext<_, _>> =
        coordinator_context.into();

    assert_eq!(reunified_context.alarm().unwrap(), now);
    assert_eq!(*reunified_context.coordinator(), "me".to_string());
    assert_eq!(*reunified_context.epoch(), 2);
    assert_eq!(reunified_context.last_commit_epoch().unwrap(), 1);
    assert_eq!(
        reunified_context.state(),
        TwoPhaseCommitState::WaitingForStart
    );
    assert_eq!(reunified_context.participants().unwrap().len(), 3);
}

#[test]
fn build_participant_context() {
    let started = Stamp(SystemTime::now());
    let unified = full_builder()
        .with_state(TwoPhaseCommitState::Voted {
            vote: true,
            decision_timeout_start: started,
        })
        .with_participant_processes(vec!["me".into(), "p1".into()])
        .build()
        .unwrap();

    assert!(unified.alarm().is_none());
    assert!(unified.last_commit_epoch().is_none());
    assert!(unified.participants().is_none());
    assert_eq!(
        unified.participant_processes().unwrap(),
        &vec![Name("me"), Name("p1")]
    );
    assert_eq!(
        unified.state(),
        TwoPhaseCommitState::Voted {
            vote: true,
            decision_timeout_start: started
        }
    );

    let participant: TwoPhaseCommitContext<_, _, ParticipantContext<_, _>> =
        unified.try_into().unwrap();
    assert_eq!(participant.participant_processes(), &vec![Name("me"), Name("p1")]);
    assert_eq!(
        *participant.state(),
        ParticipantState::Voted {
            vote: true,
            decision_timeout_start: started
        }
    );
    assert_eq!(*participant.this_process(), Name("me"));

    let unified: TwoPhaseCommitContext<_, _, TwoPhaseCommitRoleContext<_, _>> = participant.into();
    assert_eq!(unified.participant_processes().unwrap().len(), 2);
    assert_eq!(*unified.epoch(), 2);
}

fn build_error(builder: TwoPhaseCommitContextBuilder<Name, Stamp>) -> String {
    match builder.build() {
        Ok(_) => panic!("the builder must fail"),
        Err(error) => error.message().clone(),
    }
}

#[test]
fn build_reports_the_first_missing_field() {
    let participants = vec![Participant::new(Name("me"))];
    assert_eq!(
        build_error(TwoPhaseCommitContextBuilder::new()),
        "missing coordinator field"
    );
    assert_eq!(
        build_error(TwoPhaseCommitContextBuilder::new().with_coordinator(Name("me"))),
        "missing epoch field"
    );
    assert_eq!(
        build_error(
            TwoPhaseCommitContextBuilder::new()
                .with_coordinator(Name("me"))
                .with_epoch(0)
        ),
        "missing state field"
    );
    assert_eq!(
        build_error(
            TwoPhaseCommitContextBuilder::new()
                .with_coordinator(Name("me"))
                .with_epoch(0)
                .with_state(TwoPhaseCommitState::Commit)
                .with_participants(participants)
        ),
        "missing this_process field"
    );
}

#[test]
fn build_wants_exactly_one_role() {
    assert_eq!(
        build_error(full_builder()),
        "exactly one of participant or particpant_processes fields required"
    );
    assert_eq!(
        build_error(
            full_builder()
                .with_participants(vec![Participant::new(Name("p1"))])
                .with_participant_processes(vec![Name("p1")])
        ),
        "participant and participant_processes fields are mutually exclusive"
    );
}

#[test]
fn build_wants_a_state_of_the_role() {
    let voting = TwoPhaseCommitState::Voting {
        vote_timeout_start: Stamp(SystemTime::now()),
    };
    assert_eq!(
        build_error(
            full_builder()
                .with_state(voting)
                .with_participant_processes(vec![Name("p1")])
        ),
        "state is not a state of a participant"
    );
    assert_eq!(
        build_error(
            full_builder()
                .with_state(TwoPhaseCommitState::WaitingForVoteRequest)
                .with_participants(vec![Participant::new(Name("p1"))])
        ),
        "state is not a state of a coordinator"
    );
    assert!(full_builder()
        .with_state(voting)
        .with_participants(vec![Participant::new(Name("p1"))])
        .build()
        .is_ok());
}

#[test]
fn a_context_converts_only_to_its_own_role() {
    let coordinator = full_builder()
        .with_participants(vec![Participant::new(Name("p1"))])
        .build()
        .unwrap();
    let converted: Result<TwoPhaseCommitContext<_, _, ParticipantContext<_, _>>, _> =
        coordinator.try_into();
    match converted {
        Ok(_) => panic!("a coordinator is no participant"),
        Err(error) => assert_eq!(
            error.message(),
            "unable to convert TwoPhaseCommitRoleContext to ParticipantContext because inner context type is Coordinator"
        ),
    }

    let participant = full_builder()
        .with_participant_processes(vec![Name("p1")])
        .build()
        .unwrap();
    let converted: Result<TwoPhaseCommitContext<_, _, CoordinatorContext<_, _>>, _> =
        participant.try_into();
    match converted {
        Ok(_) => panic!("a participant is no coordinator"),
        Err(error) => assert_eq!(
            error.message(),
            "unable to convert TwoPhaseCommitRoleContext to CoordinatorContext because inner context type is Participant"
        ),
    }
}

#[test]
fn states_convert_between_the_roles() {
    let at = Stamp(SystemTime::now());
    let unified: TwoPhaseCommitState<Stamp> = CoordinatorState::Voting {
        vote_timeout_start: at,
    }
    .into();
    assert_eq!(
        unified,
        TwoPhaseCommitState::Voting {
            vote_timeout_start: at
        }
    );
    assert_eq!(
        CoordinatorState::try_from(unified).unwrap(),
        CoordinatorState::Voting {
            vote_timeout_start: at
        }
    );
    assert!(ParticipantState::try_from(unified).is_err());

    let unified: TwoPhaseCommitState<Stamp> = ParticipantState::WaitingForVoteRequest.into();
    assert_eq!(unified, TwoPhaseCommitState::WaitingForVoteRequest);
    assert!(CoordinatorState::try_from(unified).is_err());
    assert_eq!(
        ParticipantState::try_from(TwoPhaseCommitState::<Stamp>::Abort).unwrap(),
        ParticipantState::Abort
    );
    assert_eq!(
        CoordinatorState::try_from(TwoPhaseCommitState::<Stamp>::Commit).unwrap(),
        CoordinatorState::Commit
    );
}

#[test]
fn a_new_coordinator_waits_for_the_start() {
    let mut context: TwoPhaseCommitContext<Name, Stamp, CoordinatorContext<Name, Stamp>> =
        TwoPhaseCommitContext::<Name, Stamp, CoordinatorContext<Name, Stamp>>::new(
            Name("me"),
            Name("boss"),
            vec![Name("me"), Name("p1")],
        );
    assert!(context.alarm().is_none());
    assert_eq!(*context.coordinator(), Name("boss"));
    assert_eq!(*context.this_process(), Name("me"));
    assert_eq!(*context.epoch(), 0);
    assert!(context.last_commit_epoch().is_none());
    assert_eq!(*context.state(), CoordinatorState::WaitingForStart);
    assert_eq!(
        context.participants(),
        &vec![
            Participant {
                process: Name("me"),
                vote: None
            },
            Participant {
                process: Name("p1"),
                vote: None
            }
        ]
    );

    let at = Stamp(SystemTime::now());
    context.set_alarm(Some(at));
    context.set_epoch(7);
    context.set_last_commit_epoch(Some(6));
    context.set_state(CoordinatorState::Voting {
        vote_timeout_start: at,
    });
    context.participants_mut()[1].vote = Some(true);
    assert_eq!(*context.alarm(), Some(at));
    assert_eq!(*context.epoch(), 7);
    assert_eq!(*context.last_commit_epoch(), Some(6));
    assert_eq!(
        *context.state(),
        CoordinatorState::Voting {
            vote_timeout_start: at
        }
    );
    assert_eq!(context.participants()[1].vote, Some(true));
    assert_eq!(context.participants()[0].vote, None);
    assert_eq!(*context.coordinator(), Name("boss"));
}

#[test]
fn a_new_participant_waits_for_the_vote_request() {
    let mut context: TwoPhaseCommitContext<Name, Stamp, ParticipantContext<Name, Stamp>> =
        TwoPhaseCommitContext::<Name, Stamp, ParticipantContext<Name, Stamp>>::new(
            Name("p1"),
            Name("boss"),
            vec![Name("p1"), Name("p2")],
        );
    assert!(context.alarm().is_none());
    assert_eq!(*context.coordinator(), Name("boss"));
    assert_eq!(*context.this_process(), Name("p1"));
    assert_eq!(*context.epoch(), 0);
    assert_eq!(*context.state(), ParticipantState::WaitingForVoteRequest);
    assert_eq!(context.participant_processes(), &vec![Name("p1"), Name("p2")]);

    context.set_state(ParticipantState::WaitingForVote);
    assert_eq!(*context.state(), ParticipantState::WaitingForVote);
    assert_eq!(context.participant_processes(), &vec![Name("p1"), Name("p2")]);
}
