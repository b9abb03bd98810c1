//! One logical request to the completion service, as a state machine.
//!
//! The machine decides; whoever drives it performs. [`TaskRequester::start`]
//! extends the prompt and asks for the first attempt. The driver sends the
//! messages, and hands what came back to [`TaskRequester::advance`], which
//! says what to do next: send once more, deliver the completion, or give
//! up. A failed transport is retried once, with the same message and at
//! once; a second failure is fatal. An attempt is only ever asked for after
//! the outcome of the one before it has been handed in.

use vstd::prelude::*;
use crate::error::{ClientError, FatalError};
use crate::message::{message_views, CompletionResult, Message, MessageView, Role};
use crate::prompt::{extend_ai_function, extends};

verus! {

/// How many attempts one request may make: the first and one retry.
pub const MAX_ATTEMPTS: u8 = 2;

/// Where a request stands.
#[derive(Clone, Copy, Debug, PartialEq, Eq, Structural)]
pub enum Phase {
    /// Attempt number `attempt` has been asked for and its outcome is
    /// awaited. The first attempt has number 1.
    Requesting { attempt: u8 },
    /// A completion has been delivered.
    Done,
    /// The request has been given up.
    Fatal { error: FatalError },
}

/// The phases a request can be in.
pub open spec fn phase_valid(phase: Phase) -> bool {
    match phase {
        Phase::Requesting { attempt } => 1 <= attempt <= MAX_ATTEMPTS,
        Phase::Done => true,
        Phase::Fatal { error } => error == FatalError::Config || error == (FatalError::Transport {
            attempts: MAX_ATTEMPTS,
        }),
    }
}

/// What the outcome of one attempt amounts to.
pub enum AttemptOutcome {
    /// The service answered, and this is the text of its first choice.
    Content(Seq<char>),
    /// No completion was obtained.
    TransportFailure,
    /// The client could not be set up.
    ConfigFailure,
}

/// Reads the outcome of an attempt. An answer without any choice is
/// malformed and counts as a failed transport.
pub open spec fn classify(outcome: Result<CompletionResult, ClientError>) -> AttemptOutcome {
    match outcome {
        Ok(result) => match result.first_content() {
            Some(text) => AttemptOutcome::Content(text),
            None => AttemptOutcome::TransportFailure,
        },
        Err(ClientError::Transport) => AttemptOutcome::TransportFailure,
        Err(ClientError::Config) => AttemptOutcome::ConfigFailure,
    }
}

/// The phase that follows `phase` once `outcome` is known.
pub open spec fn next_phase(phase: Phase, outcome: AttemptOutcome) -> Phase {
    match phase {
        Phase::Requesting { attempt } => match outcome {
            AttemptOutcome::Content(_) => Phase::Done,
            AttemptOutcome::ConfigFailure => Phase::Fatal { error: FatalError::Config },
            AttemptOutcome::TransportFailure => if attempt < MAX_ATTEMPTS {
                Phase::Requesting { attempt: (attempt + 1) as u8 }
            } else {
                Phase::Fatal { error: FatalError::Transport { attempts: attempt } }
            },
        },
        _ => phase,
    }
}

/// A notification of what is being worked on and by whom, for whoever
/// reports status. Advisory: nothing depends on its delivery.
#[derive(Debug, PartialEq, Eq)]
pub struct StatusNotice {
    pub agent_position: String,
    pub operation: String,
}

/// What a [`StatusNotice`] holds, as plain values.
pub struct StatusNoticeView {
    pub agent_position: Seq<char>,
    pub operation: Seq<char>,
}

impl View for StatusNotice {
    type V = StatusNoticeView;

    open spec fn view(&self) -> StatusNoticeView {
        StatusNoticeView { agent_position: self.agent_position@, operation: self.operation@ }
    }
}

/// What the driver of a request has to do next.
#[derive(Debug, PartialEq, Eq)]
pub enum Action {
    /// Emit `notice`, if there is one, then send `messages` to the
    /// completion service, once, and hand the outcome to
    /// [`TaskRequester::advance`]. This is attempt number `attempt`.
    Send { attempt: u8, messages: Vec<Message>, notice: Option<StatusNotice> },
    /// Return `content` to the caller: the request has succeeded.
    Deliver { content: String },
    /// Return `error` to the caller: the request has failed for good.
    Abort { error: FatalError },
    /// Nothing: the request had ended before.
    Halt,
}

/// What an [`Action`] holds, as plain values.
pub enum ActionView {
    Send { attempt: u8, messages: Seq<MessageView>, notice: Option<StatusNoticeView> },
    Deliver { content: Seq<char> },
    Abort { error: FatalError },
    Halt,
}

impl View for Action {
    type V = ActionView;

    open spec fn view(&self) -> ActionView {
        match self {
            Action::Send { attempt, messages, notice } => ActionView::Send {
                attempt: *attempt,
                messages: message_views(messages@),
                notice: match notice {
                    Some(n) => Some(n@),
                    None => None,
                },
            },
            Action::Deliver { content } => ActionView::Deliver { content: content@ },
            Action::Abort { error } => ActionView::Abort { error: *error },
            Action::Halt => ActionView::Halt,
        }
    }
}

/// The action that `outcome` calls for in `phase`, for a request whose
/// extended message is `message`.
pub open spec fn action_for(phase: Phase, message: MessageView, outcome: AttemptOutcome)
    -> ActionView {
    match phase {
        Phase::Requesting { attempt } => match outcome {
            AttemptOutcome::Content(text) => ActionView::Deliver { content: text },
            AttemptOutcome::ConfigFailure => ActionView::Abort { error: FatalError::Config },
            AttemptOutcome::TransportFailure => if attempt < MAX_ATTEMPTS {
                ActionView::Send {
                    attempt: (attempt + 1) as u8,
                    messages: seq![message],
                    notice: None,
                }
            } else {
                ActionView::Abort { error: FatalError::Transport { attempts: attempt } }
            },
        },
        _ => ActionView::Halt,
    }
}

/// The action a request starts with: the notice, then the first attempt.
pub open spec fn first_action(message: MessageView, notice: StatusNoticeView) -> ActionView {
    ActionView::Send { attempt: 1, messages: seq![message], notice: Some(notice) }
}

/// The state of one request: its extended message, made once and never
/// changed, and its phase.
#[derive(Debug)]
pub struct TaskRequester {
    message: Message,
    phase: Phase,
}

impl TaskRequester {
    #[verifier::type_invariant]
    spec fn well_formed(&self) -> bool {
        &&& self.message@.role == Role::System
        &&& phase_valid(self.phase)
    }

    /// The extended message of the request.
    pub closed spec fn message(&self) -> MessageView {
        self.message@
    }

    /// The phase of the request.
    pub closed spec fn phase(&self) -> Phase {
        self.phase
    }

    /// The phase of the request: always one that [`phase_valid`] admits.
    pub fn current_phase(&self) -> (phase: Phase)
        ensures
            phase == self.phase(),
            phase_valid(phase),
    {
        proof {
            use_type_invariant(self);
        }
        self.phase
    }

    /// The extended message of the request: always a system message.
    pub fn extended_message(&self) -> (message: &Message)
        ensures
            message@ == self.message(),
            message@.role == Role::System,
    {
        proof {
            use_type_invariant(self);
        }
        &self.message
    }

    /// Starts a request: renders `template` on `input`, extends the prompt,
    /// and asks for the first attempt, preceded by the status notice.
    pub fn start<F>(
        template: F,
        input: &str,
        agent_position: &str,
        agent_operation: &str,
    ) -> (started: (TaskRequester, Action)) where F: Fn(&str) -> &'static str
        requires
            call_requires(template, (input,)),
        ensures
            started.0.phase() == (Phase::Requesting { attempt: 1 }),
            started.0.message().role == Role::System,
            extends(template, input, started.0.message()),
            started.1@ == first_action(
                started.0.message(),
                StatusNoticeView { agent_position: agent_position@, operation: agent_operation@ },
            ),
    {
        let message = extend_ai_function(template, input);
        let notice = StatusNotice {
            agent_position: String::from_str(agent_position),
            operation: String::from_str(agent_operation),
        };
        let mut messages: Vec<Message> = Vec::new();
        messages.push(message.clone());
        assert(message_views(messages@) =~= seq![message@]);
        let requester = TaskRequester { message, phase: Phase::Requesting { attempt: 1 } };
        (requester, Action::Send { attempt: 1, messages, notice: Some(notice) })
    }

    /// Takes the outcome of the attempt that was asked for last, and says
    /// what follows. The extended message stays what it was.
    ///
    /// While an attempt is awaited: a completion is delivered; a failure of
    /// the setup is fatal at once; a failed transport is retried with the
    /// same message if an attempt is left, and is fatal if none is. Once the
    /// request has ended, outcomes are ignored.
    pub fn advance(self, outcome: Result<CompletionResult, ClientError>) -> (next: (
        TaskRequester,
        Action,
    ))
        ensures
            next.0.message() == self.message(),
            next.0.phase() == next_phase(self.phase(), classify(outcome)),
            next.1@ == action_for(self.phase(), self.message(), classify(outcome)),
            phase_valid(self.phase()),
            phase_valid(next.0.phase()),
    {
        proof {
            use_type_invariant(&self);
        }
        let TaskRequester { message, phase } = self;
        match phase {
            Phase::Requesting { attempt } => {
                let failure = match outcome {
                    Ok(result) => match result.first_choice_content() {
                        Some(content) => {
                            return (
                                TaskRequester { message, phase: Phase::Done },
                                Action::Deliver { content },
                            );
                        },
                        None => ClientError::Transport,
                    },
                    Err(error) => error,
                };
                match failure {
                    ClientError::Config => {
                        let error = FatalError::Config;
                        let ended = TaskRequester { message, phase: Phase::Fatal { error } };
                        (ended, Action::Abort { error })
                    },
                    ClientError::Transport => {
                        if attempt < MAX_ATTEMPTS {
                            let retry: u8 = attempt + 1;
                            let mut messages: Vec<Message> = Vec::new();
                            messages.push(message.clone());
                            assert(message_views(messages@) =~= seq![message@]);
                            let phase = Phase::Requesting { attempt: retry };
                            (
                                TaskRequester { message, phase },
                                Action::Send { attempt: retry, messages, notice: None },
                            )
                        } else {
                            let error = FatalError::Transport { attempts: attempt };
                            let ended = TaskRequester { message, phase: Phase::Fatal { error } };
                            (ended, Action::Abort { error })
                        }
                    },
                }
            },
            _ => (TaskRequester { message, phase }, Action::Halt),
        }
    }
}

} // verus!
