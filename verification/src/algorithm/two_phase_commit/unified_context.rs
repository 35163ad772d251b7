//! The context of a process in two-phase commit, for either role, and its builder.

use vstd::prelude::*;
use vstd::std_specs::convert::{FromSpecImpl, TryFromSpecImpl};

use crate::error::InvalidStateError;
use crate::process::Process;
use crate::time::Time;

use super::coordinator_context::{CoordinatorContext, CoordinatorState, Participant};
use super::participant_context::{ParticipantContext, ParticipantState};
use super::unified_state::TwoPhaseCommitState;
use super::Epoch;

verus! {

#[derive(Clone)]
enum InnerContext<P, T> where P: Process, T: Time {
    Coordinator(CoordinatorContext<P, T>),
    Participant(ParticipantContext<P, T>),
}

/// What a role context holds: the part of a coordinator or that of a participant.
pub ghost enum Role<P, T> where P: Process, T: Time {
    Coordinator(CoordinatorContext<P, T>),
    Participant(ParticipantContext<P, T>),
}

/// The role-specific part of a context, for a process whose role is only known at run time.
#[derive(Clone)]
pub struct TwoPhaseCommitRoleContext<P, T> where P: Process, T: Time {
    inner: InnerContext<P, T>,
}

impl<P, T> View for TwoPhaseCommitRoleContext<P, T> where P: Process, T: Time {
    type V = Role<P, T>;

    closed spec fn view(&self) -> Role<P, T> {
        match self.inner {
            InnerContext::Coordinator(context) => Role::Coordinator(context),
            InnerContext::Participant(context) => Role::Participant(context),
        }
    }
}

/// The text of the error for a participant's context that is asked to be a coordinator's.
pub open spec fn role_is_participant() -> Seq<char> {
    "unable to convert TwoPhaseCommitRoleContext to CoordinatorContext because inner context type is Participant"@
}

/// The text of the error for a coordinator's context that is asked to be a participant's.
pub open spec fn role_is_coordinator() -> Seq<char> {
    "unable to convert TwoPhaseCommitRoleContext to ParticipantContext because inner context type is Coordinator"@
}

impl<P, T> TryFrom<TwoPhaseCommitRoleContext<P, T>> for CoordinatorContext<P, T> where
    P: Process,
    T: Time,
 {
    type Error = InvalidStateError;

    fn try_from(context: TwoPhaseCommitRoleContext<P, T>) -> (converted: Result<
        Self,
        InvalidStateError,
    >)
        ensures
            match converted {
                Ok(coordinator) => context@ == Role::Coordinator(coordinator),
                Err(error) => context@ is Participant && error.message_view()
                    == role_is_participant(),
            },
    {
        match context.inner {
            InnerContext::Coordinator(c) => Ok(c),
            InnerContext::Participant(_) => Err(
                InvalidStateError::with_message(
                    "unable to convert TwoPhaseCommitRoleContext to CoordinatorContext because inner context type is Participant".to_owned(),
                ),
            ),
        }
    }
}

impl<P, T> TryFromSpecImpl<TwoPhaseCommitRoleContext<P, T>> for CoordinatorContext<P, T> where
    P: Process,
    T: Time,
 {
    /// The error of a failed conversion is a value made on the spot, so the conversion is
    /// described by the contract of `try_from` and not by a specification function.
    open spec fn obeys_try_from_spec() -> bool {
        false
    }

    open spec fn try_from_spec(context: TwoPhaseCommitRoleContext<P, T>) -> Result<
        Self,
        InvalidStateError,
    > {
        arbitrary()
    }
}

impl<P, T> TryFrom<TwoPhaseCommitRoleContext<P, T>> for ParticipantContext<P, T> where
    P: Process,
    T: Time,
 {
    type Error = InvalidStateError;

    fn try_from(context: TwoPhaseCommitRoleContext<P, T>) -> (converted: Result<
        Self,
        InvalidStateError,
    >)
        ensures
            match converted {
                Ok(participant) => context@ == Role::Participant(participant),
                Err(error) => context@ is Coordinator && error.message_view()
                    == role_is_coordinator(),
            },
    {
        match context.inner {
            InnerContext::Participant(c) => Ok(c),
            InnerContext::Coordinator(_) => Err(
                InvalidStateError::with_message(
                    "unable to convert TwoPhaseCommitRoleContext to ParticipantContext because inner context type is Coordinator".to_owned(),
                ),
            ),
        }
    }
}

impl<P, T> TryFromSpecImpl<TwoPhaseCommitRoleContext<P, T>> for ParticipantContext<P, T> where
    P: Process,
    T: Time,
 {
    /// The error of a failed conversion is a value made on the spot, so the conversion is
    /// described by the contract of `try_from` and not by a specification function.
    open spec fn obeys_try_from_spec() -> bool {
        false
    }

    open spec fn try_from_spec(context: TwoPhaseCommitRoleContext<P, T>) -> Result<
        Self,
        InvalidStateError,
    > {
        arbitrary()
    }
}

impl<P, T> From<CoordinatorContext<P, T>> for TwoPhaseCommitRoleContext<P, T> where
    P: Process,
    T: Time,
 {
    fn from(context: CoordinatorContext<P, T>) -> (role: Self)
        ensures
            role@ == Role::Coordinator(context),
    {
        Self { inner: InnerContext::Coordinator(context) }
    }
}

impl<P, T> FromSpecImpl<CoordinatorContext<P, T>> for TwoPhaseCommitRoleContext<P, T> where
    P: Process,
    T: Time,
 {
    open spec fn obeys_from_spec() -> bool {
        true
    }

    closed spec fn from_spec(context: CoordinatorContext<P, T>) -> Self {
        Self { inner: InnerContext::Coordinator(context) }
    }
}

impl<P, T> From<ParticipantContext<P, T>> for TwoPhaseCommitRoleContext<P, T> where
    P: Process,
    T: Time,
 {
    fn from(context: ParticipantContext<P, T>) -> (role: Self)
        ensures
            role@ == Role::Participant(context),
    {
        Self { inner: InnerContext::Participant(context) }
    }
}

impl<P, T> FromSpecImpl<ParticipantContext<P, T>> for TwoPhaseCommitRoleContext<P, T> where
    P: Process,
    T: Time,
 {
    open spec fn obeys_from_spec() -> bool {
        true
    }

    closed spec fn from_spec(context: ParticipantContext<P, T>) -> Self {
        Self { inner: InnerContext::Participant(context) }
    }
}

/// What a context holds, as a mathematical value.
pub ghost struct ContextFields<P, T, R> {
    /// The time at which the host is to wake the process, if it is to.
    pub alarm: Option<T>,
    /// The process that coordinates.
    pub coordinator: P,
    /// The current epoch.
    pub epoch: Epoch,
    /// The last epoch that ended with a commit, if there was one.
    pub last_commit_epoch: Option<Epoch>,
    /// The part that depends on the role of the process.
    pub role_context: R,
    /// The process that owns the context.
    pub this_process: P,
}

/// The context of a process in two-phase commit. `R` is the part that depends on the role
/// of the process.
#[derive(Clone)]
pub struct TwoPhaseCommitContext<P, T, R> where P: Process, T: Time, R: Clone {
    alarm: Option<T>,
    coordinator: P,
    epoch: Epoch,
    last_commit_epoch: Option<Epoch>,
    role_context: R,
    this_process: P,
}

impl<P, T, R> View for TwoPhaseCommitContext<P, T, R> where P: Process, T: Time, R: Clone {
    type V = ContextFields<P, T, R>;

    closed spec fn view(&self) -> ContextFields<P, T, R> {
        ContextFields {
            alarm: self.alarm,
            coordinator: self.coordinator,
            epoch: self.epoch,
            last_commit_epoch: self.last_commit_epoch,
            role_context: self.role_context,
            this_process: self.this_process,
        }
    }
}

impl<P, T, R> TwoPhaseCommitContext<P, T, R> where P: Process, T: Time, R: Clone {
    /// The time at which the host is to wake the process, if it is to.
    pub fn alarm(&self) -> (alarm: &Option<T>)
        ensures
            *alarm == self@.alarm,
    {
        &self.alarm
    }

    /// Sets or clears the alarm.
    pub fn set_alarm(&mut self, alarm: Option<T>)
        ensures
            final(self)@ == (ContextFields { alarm, ..old(self)@ }),
    {
        self.alarm = alarm;
    }

    /// The process that coordinates.
    pub fn coordinator(&self) -> (coordinator: &P)
        ensures
            *coordinator == self@.coordinator,
    {
        &self.coordinator
    }

    /// The current epoch.
    pub fn epoch(&self) -> (epoch: &Epoch)
        ensures
            *epoch == self@.epoch,
    {
        &self.epoch
    }

    /// Makes `epoch` the current epoch.
    pub fn set_epoch(&mut self, epoch: Epoch)
        ensures
            final(self)@ == (ContextFields { epoch, ..old(self)@ }),
    {
        self.epoch = epoch
    }

    /// The last epoch that ended with a commit, if there was one.
    pub fn last_commit_epoch(&self) -> (epoch: &Option<Epoch>)
        ensures
            *epoch == self@.last_commit_epoch,
    {
        &self.last_commit_epoch
    }

    /// Sets or clears the last epoch that ended with a commit.
    pub fn set_last_commit_epoch(&mut self, epoch: Option<Epoch>)
        ensures
            final(self)@ == (ContextFields { last_commit_epoch: epoch, ..old(self)@ }),
    {
        self.last_commit_epoch = epoch
    }

    /// The process that owns the context.
    pub fn this_process(&self) -> (process: &P)
        ensures
            *process == self@.this_process,
    {
        &self.this_process
    }
}

impl<P, T> TwoPhaseCommitContext<P, T, TwoPhaseCommitRoleContext<P, T>> where P: Process, T: Time {
    /// The participants and their votes, if the process is the coordinator.
    pub fn participants(&self) -> (participants: Option<&Vec<Participant<P>>>)
        ensures
            match self@.role_context@ {
                Role::Coordinator(context) => participants == Some(&context.participants),
                Role::Participant(_) => participants is None,
            },
    {
        match &self.role_context.inner {
            InnerContext::Coordinator(c) => Some(&c.participants),
            InnerContext::Participant(_) => None,
        }
    }

    /// All participating processes, if the process is a participant.
    pub fn participant_processes(&self) -> (processes: Option<&Vec<P>>)
        ensures
            match self@.role_context@ {
                Role::Coordinator(_) => processes is None,
                Role::Participant(context) => processes == Some(&context.participant_processes),
            },
    {
        match &self.role_context.inner {
            InnerContext::Coordinator(_) => None,
            InnerContext::Participant(c) => Some(&c.participant_processes),
        }
    }

    /// The state of the process, whatever its role.
    pub fn state(&self) -> (state: TwoPhaseCommitState<T>)
        ensures
            state == match self@.role_context@ {
                Role::Coordinator(context) => context.state.unified(),
                Role::Participant(context) => context.state.unified(),
            },
    {
        match &self.role_context.inner {
            InnerContext::Coordinator(c) => TwoPhaseCommitState::from(c.state),
            InnerContext::Participant(c) => TwoPhaseCommitState::from(c.state),
        }
    }
}

impl<P, T> TwoPhaseCommitContext<P, T, CoordinatorContext<P, T>> where P: Process, T: Time {
    /// The context of a coordinator before the first epoch: nobody has voted, and the
    /// coordinator waits to be started.
    pub fn new(this_process: P, coordinator: P, participant_processes: Vec<P>) -> (context: Self)
        ensures
            context@.alarm is None,
            context@.coordinator == coordinator,
            context@.epoch == 0,
            context@.last_commit_epoch is None,
            context@.this_process == this_process,
            context@.role_context.state == CoordinatorState::<T>::WaitingForStart,
            context@.role_context.participants@ == participant_processes@.map_values(
                |process: P| Participant { process, vote: None },
            ),
    {
        let mut participants: Vec<Participant<P>> = Vec::new();
        let mut i: usize = 0;
        while i < participant_processes.len()
            invariant
                i <= participant_processes.len(),
                participants@ == participant_processes@.take(i as int).map_values(
                    |process: P| Participant { process, vote: None },
                ),
            decreases participant_processes.len() - i,
        {
            participants.push(Participant::new(participant_processes[i]));
            proof {
                let f = |process: P| Participant { process, vote: None };
                assert(participant_processes@.take(i + 1).map_values(f)
                    =~= participant_processes@.take(i as int).map_values(f).push(
                    f(participant_processes@[i as int]),
                ));
            }
            i += 1;
        }
        Self {
            alarm: None,
            coordinator,
            epoch: 0,
            last_commit_epoch: None,
            role_context: CoordinatorContext {
                participants,
                state: CoordinatorState::WaitingForStart,
            },
            this_process,
        }
    }

    /// The participants and their votes.
    pub fn participants(&self) -> (participants: &Vec<Participant<P>>)
        ensures
            *participants == self@.role_context.participants,
    {
        &self.role_context.participants
    }

    /// The participants and their votes, to be changed in place.
    pub fn participants_mut(&mut self) -> (participants: &mut Vec<Participant<P>>)
        ensures
            *participants == old(self)@.role_context.participants,
            final(self)@ == (ContextFields {
                role_context: CoordinatorContext {
                    participants: *final(participants),
                    state: old(self)@.role_context.state,
                },
                ..old(self)@
            }),
    {
        &mut self.role_context.participants
    }

    /// The state of the coordinator.
    pub fn state(&self) -> (state: &CoordinatorState<T>)
        ensures
            *state == self@.role_context.state,
    {
        &self.role_context.state
    }

    /// Puts the coordinator into `state`.
    pub fn set_state(&mut self, state: CoordinatorState<T>)
        ensures
            final(self)@ == (ContextFields {
                role_context: CoordinatorContext {
                    participants: old(self)@.role_context.participants,
                    state,
                },
                ..old(self)@
            }),
    {
        self.role_context.state = state;
    }
}

impl<P, T> TwoPhaseCommitContext<P, T, ParticipantContext<P, T>> where P: Process, T: Time {
    /// The context of a participant before the first epoch: it waits to be asked for its
    /// vote.
    pub fn new(this_process: P, coordinator: P, participant_processes: Vec<P>) -> (context: Self)
        ensures
            context@ == (ContextFields {
                alarm: None::<T>,
                coordinator,
                epoch: 0,
                last_commit_epoch: None::<Epoch>,
                role_context: ParticipantContext {
                    participant_processes,
                    state: ParticipantState::<T>::WaitingForVoteRequest,
                },
                this_process,
            }),
    {
        Self {
            alarm: None,
            coordinator,
            epoch: 0,
            last_commit_epoch: None,
            role_context: ParticipantContext {
                participant_processes,
                state: ParticipantState::WaitingForVoteRequest,
            },
            this_process,
        }
    }

    /// All participating processes.
    pub fn participant_processes(&self) -> (processes: &Vec<P>)
        ensures
            *processes == self@.role_context.participant_processes,
    {
        &self.role_context.participant_processes
    }

    /// The state of the participant.
    pub fn state(&self) -> (state: &ParticipantState<T>)
        ensures
            *state == self@.role_context.state,
    {
        &self.role_context.state
    }

    /// Puts the participant into `state`.
    pub fn set_state(&mut self, state: ParticipantState<T>)
        ensures
            final(self)@ == (ContextFields {
                role_context: ParticipantContext {
                    participant_processes: old(self)@.role_context.participant_processes,
                    state,
                },
                ..old(self)@
            }),
    {
        self.role_context.state = state;
    }
}

/// What a builder has been given so far, as a mathematical value.
pub ghost struct BuilderFields<P, T> where P: Process, T: Time {
    pub alarm: Option<T>,
    pub coordinator: Option<P>,
    pub epoch: Option<Epoch>,
    pub last_commit_epoch: Option<Epoch>,
    pub participants: Option<Vec<Participant<P>>>,
    pub participant_processes: Option<Vec<P>>,
    pub state: Option<TwoPhaseCommitState<T>>,
    pub this_process: Option<P>,
}

impl<P, T> BuilderFields<P, T> where P: Process, T: Time {
    /// The text of the error with which no context can be built from the fields, if there
    /// is one. A coordinator, an epoch, a state and the process itself are required, in
    /// this order; then exactly one of the participants and the participant processes,
    /// which decides the role; and the state must be one of that role.
    pub open spec fn build_error(self) -> Option<Seq<char>> {
        if self.coordinator is None {
            Some("missing coordinator field"@)
        } else if self.epoch is None {
            Some("missing epoch field"@)
        } else if self.state is None {
            Some("missing state field"@)
        } else if self.this_process is None {
            Some("missing this_process field"@)
        } else {
            match (self.participants, self.participant_processes) {
                (Some(_), None) => if self.state->Some_0.as_coordinator() is None {
                    Some(super::unified_state::not_a_coordinator_state())
                } else {
                    None
                },
                (None, Some(_)) => if self.state->Some_0.as_participant() is None {
                    Some(super::unified_state::not_a_participant_state())
                } else {
                    None
                },
                (Some(_), Some(_)) => Some(
                    "participant and participant_processes fields are mutually exclusive"@,
                ),
                (None, None) => Some(
                    "exactly one of participant or particpant_processes fields required"@,
                ),
            }
        }
    }

    /// The role-specific part of the context that is built from the fields.
    pub open spec fn built_role(self) -> Role<P, T> {
        if self.participants is Some {
            Role::Coordinator(
                CoordinatorContext {
                    participants: self.participants->Some_0,
                    state: self.state->Some_0.as_coordinator()->Some_0,
                },
            )
        } else {
            Role::Participant(
                ParticipantContext {
                    participant_processes: self.participant_processes->Some_0,
                    state: self.state->Some_0.as_participant()->Some_0,
                },
            )
        }
    }
}

/// Collects the fields of a context, for either role, and builds the context from them.
#[derive(Default)]
pub struct TwoPhaseCommitContextBuilder<P, T> where P: Process, T: Time {
    alarm: Option<T>,
    coordinator: Option<P>,
    epoch: Option<Epoch>,
    last_commit_epoch: Option<Epoch>,
    participants: Option<Vec<Participant<P>>>,
    participant_processes: Option<Vec<P>>,
    state: Option<TwoPhaseCommitState<T>>,
    this_process: Option<P>,
}

impl<P, T> View for TwoPhaseCommitContextBuilder<P, T> where P: Process, T: Time {
    type V = BuilderFields<P, T>;

    closed spec fn view(&self) -> BuilderFields<P, T> {
        BuilderFields {
            alarm: self.alarm,
            coordinator: self.coordinator,
            epoch: self.epoch,
            last_commit_epoch: self.last_commit_epoch,
            participants: self.participants,
            participant_processes: self.participant_processes,
            state: self.state,
            this_process: self.this_process,
        }
    }
}

impl<P, T> TwoPhaseCommitContextBuilder<P, T> where P: Process, T: Time {
    /// A builder that has been given nothing yet.
    pub fn new() -> (builder: Self)
        ensures
            builder@ == (BuilderFields::<P, T> {
                alarm: None,
                coordinator: None,
                epoch: None,
                last_commit_epoch: None,
                participants: None,
                participant_processes: None,
                state: None,
                this_process: None,
            }),
    {
        Self {
            alarm: None,
            coordinator: None,
            epoch: None,
            last_commit_epoch: None,
            participants: None,
            participant_processes: None,
            state: None,
            this_process: None,
        }
    }

    /// Sets the alarm.
    pub fn with_alarm(self, alarm: T) -> (builder: Self)
        ensures
            builder@ == (BuilderFields { alarm: Some(alarm), ..self@ }),
    {
        let mut builder = self;
        builder.alarm = Some(alarm);
        builder
    }

    /// Sets the coordinator.
    pub fn with_coordinator(self, coordinator: P) -> (builder: Self)
        ensures
            builder@ == (BuilderFields { coordinator: Some(coordinator), ..self@ }),
    {
        let mut builder = self;
        builder.coordinator = Some(coordinator);
        builder
    }

    /// Sets the epoch.
    pub fn with_epoch(self, epoch: Epoch) -> (builder: Self)
        ensures
            builder@ == (BuilderFields { epoch: Some(epoch), ..self@ }),
    {
        let mut builder = self;
        builder.epoch = Some(epoch);
        builder
    }

    /// Sets the last epoch that ended with a commit.
    pub fn with_last_commit_epoch(self, last_commit_epoch: Epoch) -> (builder: Self)
        ensures
            builder@ == (BuilderFields { last_commit_epoch: Some(last_commit_epoch), ..self@ }),
    {
        let mut builder = self;
        builder.last_commit_epoch = Some(last_commit_epoch);
        builder
    }

    /// Sets the participants, which makes the context that of a coordinator.
    pub fn with_participants(self, participants: Vec<Participant<P>>) -> (builder: Self)
        ensures
            builder@ == (BuilderFields { participants: Some(participants), ..self@ }),
    {
        let mut builder = self;
        builder.participants = Some(participants);
        builder
    }

    /// Sets the participant processes, which makes the context that of a participant.
    pub fn with_participant_processes(self, participant_processes: Vec<P>) -> (builder: Self)
        ensures
            builder@ == (BuilderFields {
                participant_processes: Some(participant_processes),
                ..self@
            }),
    {
        let mut builder = self;
        builder.participant_processes = Some(participant_processes);
        builder
    }

    /// Sets the state.
    pub fn with_state(self, state: TwoPhaseCommitState<T>) -> (builder: Self)
        ensures
            builder@ == (BuilderFields { state: Some(state), ..self@ }),
    {
        let mut builder = self;
        builder.state = Some(state);
        builder
    }

    /// Sets the process that owns the context.
    pub fn with_this_process(self, this_process: P) -> (builder: Self)
        ensures
            builder@ == (BuilderFields { this_process: Some(this_process), ..self@ }),
    {
        let mut builder = self;
        builder.this_process = Some(this_process);
        builder
    }

    /// Builds the context from the fields given, or says which of them is missing or does
    /// not go with the others.
    pub fn build(self) -> (result: Result<
        TwoPhaseCommitContext<P, T, TwoPhaseCommitRoleContext<P, T>>,
        InvalidStateError,
    >)
        ensures
            match result {
                Ok(context) => {
                    &&& self@.build_error() is None
                    &&& context@.alarm == self@.alarm
                    &&& context@.coordinator == self@.coordinator->Some_0
                    &&& context@.epoch == self@.epoch->Some_0
                    &&& context@.last_commit_epoch == self@.last_commit_epoch
                    &&& context@.role_context@ == self@.built_role()
                    &&& context@.this_process == self@.this_process->Some_0
                },
                Err(error) => self@.build_error() == Some(error.message_view()),
            },
    {
        let alarm = self.alarm;
        let last_commit_epoch = self.last_commit_epoch;

        let coordinator = match self.coordinator {
            Some(coordinator) => coordinator,
            None => {
                return Err(InvalidStateError::with_message("missing coordinator field".to_owned()));
            },
        };

        let epoch = match self.epoch {
            Some(epoch) => epoch,
            None => {
                return Err(InvalidStateError::with_message("missing epoch field".to_owned()));
            },
        };

        let state = match self.state {
            Some(state) => state,
            None => {
                return Err(InvalidStateError::with_message("missing state field".to_owned()));
            },
        };

        let this_process = match self.this_process {
            Some(this_process) => this_process,
            None => {
                return Err(InvalidStateError::with_message("missing this_process field".to_owned()));
            },
        };

        let role_context = match (self.participants, self.participant_processes) {
            (Some(participants), None) => TwoPhaseCommitRoleContext {
                inner: InnerContext::Coordinator(
                    CoordinatorContext { participants, state: CoordinatorState::try_from(state)? },
                ),
            },
            (None, Some(participant_processes)) => TwoPhaseCommitRoleContext {
                inner: InnerContext::Participant(
                    ParticipantContext {
                        participant_processes,
                        state: ParticipantState::try_from(state)?,
                    },
                ),
            },
            (Some(_), Some(_)) => {
                return Err(
                    InvalidStateError::with_message(
                        "participant and participant_processes fields are mutually exclusive".to_owned(),
                    ),
                );
            },
            (None, None) => {
                return Err(
                    InvalidStateError::with_message(
                        "exactly one of participant or particpant_processes fields required".to_owned(),
                    ),
                );
            },
        };

        Ok(
            TwoPhaseCommitContext {
                alarm,
                coordinator,
                epoch,
                last_commit_epoch,
                role_context,
                this_process,
            },
        )
    }
}

impl<P, T> TryFrom<TwoPhaseCommitContext<P, T, TwoPhaseCommitRoleContext<P, T>>> for TwoPhaseCommitContext<
    P,
    T,
    CoordinatorContext<P, T>,
> where P: Process, T: Time {
    type Error = InvalidStateError;

    fn try_from(context: TwoPhaseCommitContext<P, T, TwoPhaseCommitRoleContext<P, T>>) -> (converted:
        Result<Self, InvalidStateError>)
        ensures
            match converted {
                Ok(specific) => {
                    &&& context@.role_context@ == Role::Coordinator(specific@.role_context)
                    &&& specific@.alarm == context@.alarm
                    &&& specific@.coordinator == context@.coordinator
                    &&& specific@.epoch == context@.epoch
                    &&& specific@.last_commit_epoch == context@.last_commit_epoch
                    &&& specific@.this_process == context@.this_process
                },
                Err(error) => context@.role_context@ is Participant && error.message_view()
                    == role_is_participant(),
            },
    {
        Ok(
            Self {
                alarm: context.alarm,
                coordinator: context.coordinator,
                epoch: context.epoch,
                last_commit_epoch: context.last_commit_epoch,
                role_context: CoordinatorContext::try_from(context.role_context)?,
                this_process: context.this_process,
            },
        )
    }
}

impl<P, T> TryFromSpecImpl<TwoPhaseCommitContext<P, T, TwoPhaseCommitRoleContext<P, T>>> for TwoPhaseCommitContext<
    P,
    T,
    CoordinatorContext<P, T>,
> where P: Process, T: Time {
    /// The error of a failed conversion is a value made on the spot, so the conversion is
    /// described by the contract of `try_from` and not by a specification function.
    open spec fn obeys_try_from_spec() -> bool {
        false
    }

    open spec fn try_from_spec(
        context: TwoPhaseCommitContext<P, T, TwoPhaseCommitRoleContext<P, T>>,
    ) -> Result<Self, InvalidStateError> {
        arbitrary()
    }
}

impl<P, T> From<TwoPhaseCommitContext<P, T, CoordinatorContext<P, T>>> for TwoPhaseCommitContext<
    P,
    T,
    TwoPhaseCommitRoleContext<P, T>,
> where P: Process, T: Time {
    fn from(context: TwoPhaseCommitContext<P, T, CoordinatorContext<P, T>>) -> (unified: Self)
        ensures
            unified@.role_context@ == Role::Coordinator(context@.role_context),
            unified@.alarm == context@.alarm,
            unified@.coordinator == context@.coordinator,
            unified@.epoch == context@.epoch,
            unified@.last_commit_epoch == context@.last_commit_epoch,
            unified@.this_process == context@.this_process,
    {
        Self {
            alarm: context.alarm,
            coordinator: context.coordinator,
            epoch: context.epoch,
            last_commit_epoch: context.last_commit_epoch,
            role_context: TwoPhaseCommitRoleContext::from(context.role_context),
            this_process: context.this_process,
        }
    }
}

impl<P, T> FromSpecImpl<TwoPhaseCommitContext<P, T, CoordinatorContext<P, T>>> for TwoPhaseCommitContext<
    P,
    T,
    TwoPhaseCommitRoleContext<P, T>,
> where P: Process, T: Time {
    open spec fn obeys_from_spec() -> bool {
        true
    }

    closed spec fn from_spec(context: TwoPhaseCommitContext<P, T, CoordinatorContext<P, T>>) -> Self {
        Self {
            alarm: context.alarm,
            coordinator: context.coordinator,
            epoch: context.epoch,
            last_commit_epoch: context.last_commit_epoch,
            role_context: TwoPhaseCommitRoleContext {
                inner: InnerContext::Coordinator(context.role_context),
            },
            this_process: context.this_process,
        }
    }
}

impl<P, T> TryFrom<TwoPhaseCommitContext<P, T, TwoPhaseCommitRoleContext<P, T>>> for TwoPhaseCommitContext<
    P,
    T,
    ParticipantContext<P, T>,
> where P: Process, T: Time {
    type Error = InvalidStateError;

    fn try_from(context: TwoPhaseCommitContext<P, T, TwoPhaseCommitRoleContext<P, T>>) -> (converted:
        Result<Self, InvalidStateError>)
        ensures
            match converted {
                Ok(specific) => {
                    &&& context@.role_context@ == Role::Participant(specific@.role_context)
                    &&& specific@.alarm == context@.alarm
                    &&& specific@.coordinator == context@.coordinator
                    &&& specific@.epoch == context@.epoch
                    &&& specific@.last_commit_epoch == context@.last_commit_epoch
                    &&& specific@.this_process == context@.this_process
                },
                Err(error) => context@.role_context@ is Coordinator && error.message_view()
                    == role_is_coordinator(),
            },
    {
        Ok(
            Self {
                alarm: context.alarm,
                coordinator: context.coordinator,
                epoch: context.epoch,
                last_commit_epoch: context.last_commit_epoch,
                role_context: ParticipantContext::try_from(context.role_context)?,
                this_process: context.this_process,
            },
        )
    }
}

impl<P, T> TryFromSpecImpl<TwoPhaseCommitContext<P, T, TwoPhaseCommitRoleContext<P, T>>> for TwoPhaseCommitContext<
    P,
    T,
    ParticipantContext<P, T>,
> where P: Process, T: Time {
    /// The error of a failed conversion is a value made on the spot, so the conversion is
    /// described by the contract of `try_from` and not by a specification function.
    open spec fn obeys_try_from_spec() -> bool {
        false
    }

    open spec fn try_from_spec(
        context: TwoPhaseCommitContext<P, T, TwoPhaseCommitRoleContext<P, T>>,
    ) -> Result<Self, InvalidStateError> {
        arbitrary()
    }
}

impl<P, T> From<TwoPhaseCommitContext<P, T, ParticipantContext<P, T>>> for TwoPhaseCommitContext<
    P,
    T,
    TwoPhaseCommitRoleContext<P, T>,
> where P: Process, T: Time {
    fn from(context: TwoPhaseCommitContext<P, T, ParticipantContext<P, T>>) -> (unified: Self)
        ensures
            unified@.role_context@ == Role::Participant(context@.role_context),
            unified@.alarm == context@.alarm,
            unified@.coordinator == context@.coordinator,
            unified@.epoch == context@.epoch,
            unified@.last_commit_epoch == context@.last_commit_epoch,
            unified@.this_process == context@.this_process,
    {
        Self {
            alarm: context.alarm,
            coordinator: context.coordinator,
            epoch: context.epoch,
            last_commit_epoch: context.last_commit_epoch,
            role_context: TwoPhaseCommitRoleContext::from(context.role_context),
            this_process: context.this_process,
        }
    }
}

impl<P, T> FromSpecImpl<TwoPhaseCommitContext<P, T, ParticipantContext<P, T>>> for TwoPhaseCommitContext<
    P,
    T,
    TwoPhaseCommitRoleContext<P, T>,
> where P: Process, T: Time {
    open spec fn obeys_from_spec() -> bool {
        true
    }

    closed spec fn from_spec(context: TwoPhaseCommitContext<P, T, ParticipantContext<P, T>>) -> Self {
        Self {
            alarm: context.alarm,
            coordinator: context.coordinator,
            epoch: context.epoch,
            last_commit_epoch: context.last_commit_epoch,
            role_context: TwoPhaseCommitRoleContext {
                inner: InnerContext::Participant(context.role_context),
            },
            this_process: context.this_process,
        }
    }
}

} // verus!
