//! The course of a whole request: what its driver is told to do, action by
//! action, when the attempts meet a given series of outcomes.
//!
//! The driver starts with the first action, and after every `Send` hands
//! the outcome of that attempt to the machine. It stops at the first action
//! that is no `Send`. The laws below are stated over that course.

use vstd::prelude::*;
use crate::error::FatalError;
use crate::message::MessageView;
use crate::request::{
    action_for, first_action, next_phase, phase_valid, ActionView, AttemptOutcome, Phase,
    StatusNoticeView, MAX_ATTEMPTS,
};

verus! {

/// What a driver goes through from some phase on.
pub struct Course {
    /// The actions it is told to take, in order.
    pub actions: Seq<ActionView>,
    /// The phase it ends in.
    pub phase: Phase,
}

/// The course from `phase` on, for a request with extended message
/// `message`, when the attempts still to come have the outcomes `outcomes`,
/// in this order. Outcomes are only consumed while an attempt is awaited:
/// once the request has ended nothing is sent, so nothing comes back.
pub open spec fn play(phase: Phase, message: MessageView, outcomes: Seq<AttemptOutcome>) -> Course
    decreases outcomes.len(),
{
    if outcomes.len() == 0 || !(phase is Requesting) {
        Course { actions: Seq::empty(), phase }
    } else {
        let rest = play(next_phase(phase, outcomes[0]), message, outcomes.drop_first());
        Course {
            actions: seq![action_for(phase, message, outcomes[0])] + rest.actions,
            phase: rest.phase,
        }
    }
}

/// The course of a request from its start.
pub open spec fn request_course(
    message: MessageView,
    notice: StatusNoticeView,
    outcomes: Seq<AttemptOutcome>,
) -> Course {
    let rest = play(Phase::Requesting { attempt: 1 }, message, outcomes);
    Course { actions: seq![first_action(message, notice)] + rest.actions, phase: rest.phase }
}

/// 1 if `action` asks for an attempt, 0 if not.
pub open spec fn sends(action: ActionView) -> nat {
    if action is Send {
        1
    } else {
        0
    }
}

/// How many of `actions` ask for an attempt.
pub open spec fn send_count(actions: Seq<ActionView>) -> nat
    decreases actions.len(),
{
    if actions.len() == 0 {
        0
    } else {
        send_count(actions.drop_last()) + sends(actions.last())
    }
}

/// The retry: the second attempt, with the same message and no notice.
pub open spec fn retry_action(message: MessageView) -> ActionView {
    ActionView::Send { attempt: 2, messages: seq![message], notice: None }
}

proof fn lemma_send_count_one(a: ActionView)
    ensures
        send_count(seq![a]) == sends(a),
{
    assert(seq![a].drop_last() =~= Seq::<ActionView>::empty());
    assert(send_count(Seq::<ActionView>::empty()) == 0);
}

proof fn lemma_send_count_two(a: ActionView, b: ActionView)
    ensures
        send_count(seq![a, b]) == sends(a) + sends(b),
{
    lemma_send_count_one(a);
    assert(seq![a, b].drop_last() =~= seq![a]);
}

proof fn lemma_send_count_three(a: ActionView, b: ActionView, c: ActionView)
    ensures
        send_count(seq![a, b, c]) == sends(a) + sends(b) + sends(c),
{
    lemma_send_count_two(a, b);
    assert(seq![a, b, c].drop_last() =~= seq![a, b]);
}

/// The action that ends a request whose last attempt, number `attempt`,
/// had the outcome `outcome`, where that outcome does end it.
pub open spec fn closing_action(attempt: u8, outcome: AttemptOutcome) -> ActionView {
    match outcome {
        AttemptOutcome::Content(content) => ActionView::Deliver { content },
        AttemptOutcome::ConfigFailure => ActionView::Abort { error: FatalError::Config },
        AttemptOutcome::TransportFailure => ActionView::Abort {
            error: FatalError::Transport { attempts: attempt },
        },
    }
}

/// The phase a request ends in when its last attempt, number `attempt`, had
/// the outcome `outcome`, where that outcome does end it.
pub open spec fn closing_phase(attempt: u8, outcome: AttemptOutcome) -> Phase {
    match outcome {
        AttemptOutcome::Content(_) => Phase::Done,
        AttemptOutcome::ConfigFailure => Phase::Fatal { error: FatalError::Config },
        AttemptOutcome::TransportFailure => Phase::Fatal {
            error: FatalError::Transport { attempts: attempt },
        },
    }
}

/// The course of a request has one of four shapes, and the outcomes of the
/// first two attempts alone decide which:
/// no outcome is in yet, and the first attempt is awaited;
/// the first attempt ends the request, by a completion or a failed setup;
/// the first attempt fails in transport, and the retry is awaited;
/// the first attempt fails in transport, and the retry ends the request,
/// whatever its outcome.
pub proof fn lemma_course_shapes(
    message: MessageView,
    notice: StatusNoticeView,
    outcomes: Seq<AttemptOutcome>,
)
    ensures
        request_course(message, notice, outcomes) == if outcomes.len() == 0 {
            Course {
                actions: seq![first_action(message, notice)],
                phase: Phase::Requesting { attempt: 1 },
            }
        } else if !(outcomes[0] is TransportFailure) {
            Course {
                actions: seq![first_action(message, notice), closing_action(1, outcomes[0])],
                phase: closing_phase(1, outcomes[0]),
            }
        } else if outcomes.len() == 1 {
            Course {
                actions: seq![first_action(message, notice), retry_action(message)],
                phase: Phase::Requesting { attempt: 2 },
            }
        } else {
            Course {
                actions: seq![
                    first_action(message, notice),
                    retry_action(message),
                    closing_action(2, outcomes[1]),
                ],
                phase: closing_phase(2, outcomes[1]),
            }
        },
{
    let first = Phase::Requesting { attempt: 1 };
    let second = Phase::Requesting { attempt: 2 };
    let course = request_course(message, notice, outcomes);
    if outcomes.len() == 0 {
        assert(course.actions =~= seq![first_action(message, notice)]);
    } else {
        let after_first = outcomes.drop_first();
        if !(outcomes[0] is TransportFailure) {
            assert(!(next_phase(first, outcomes[0]) is Requesting));
            assert(play(next_phase(first, outcomes[0]), message, after_first).actions
                =~= Seq::<ActionView>::empty());
            assert(course.actions =~= seq![
                first_action(message, notice),
                closing_action(1, outcomes[0]),
            ]);
        } else {
            assert(next_phase(first, outcomes[0]) == second);
            assert(action_for(first, message, outcomes[0]) == retry_action(message));
            if outcomes.len() == 1 {
                assert(after_first.len() == 0);
                assert(course.actions =~= seq![
                    first_action(message, notice),
                    retry_action(message),
                ]);
            } else {
                assert(after_first[0] == outcomes[1]);
                let after_second = after_first.drop_first();
                assert(!(next_phase(second, outcomes[1]) is Requesting));
                assert(play(next_phase(second, outcomes[1]), message, after_second).actions
                    =~= Seq::<ActionView>::empty());
                assert(play(second, message, after_first).actions =~= seq![
                    closing_action(2, outcomes[1]),
                ]);
                assert(course.actions =~= seq![
                    first_action(message, notice),
                    retry_action(message),
                    closing_action(2, outcomes[1]),
                ]);
            }
        }
    }
}

/// If the first attempt succeeds with `content`, the request delivers
/// exactly `content`, and a single send was made.
pub proof fn lemma_first_attempt_succeeds(
    message: MessageView,
    notice: StatusNoticeView,
    outcomes: Seq<AttemptOutcome>,
    content: Seq<char>,
)
    requires
        outcomes.len() >= 1,
        outcomes[0] == AttemptOutcome::Content(content),
    ensures
        request_course(message, notice, outcomes).actions == seq![
            first_action(message, notice),
            ActionView::Deliver { content },
        ],
        request_course(message, notice, outcomes).phase == Phase::Done,
        send_count(request_course(message, notice, outcomes).actions) == 1,
{
    lemma_course_shapes(message, notice, outcomes);
    lemma_send_count_two(first_action(message, notice), ActionView::Deliver { content });
}

/// If the first attempt fails in transport and the second succeeds with
/// `content`, the request delivers exactly `content`, and exactly two sends
/// were made, both of the same message.
pub proof fn lemma_retry_succeeds(
    message: MessageView,
    notice: StatusNoticeView,
    outcomes: Seq<AttemptOutcome>,
    content: Seq<char>,
)
    requires
        outcomes.len() >= 2,
        outcomes[0] == AttemptOutcome::TransportFailure,
        outcomes[1] == AttemptOutcome::Content(content),
    ensures
        request_course(message, notice, outcomes).actions == seq![
            first_action(message, notice),
            retry_action(message),
            ActionView::Deliver { content },
        ],
        request_course(message, notice, outcomes).phase == Phase::Done,
        send_count(request_course(message, notice, outcomes).actions) == 2,
{
    lemma_course_shapes(message, notice, outcomes);
    lemma_send_count_three(
        first_action(message, notice),
        retry_action(message),
        ActionView::Deliver { content },
    );
}

/// If both attempts fail in transport, the request ends in a fatal error
/// after exactly two sends: whatever a third attempt would have met, none
/// is made.
pub proof fn lemma_both_attempts_fail(
    message: MessageView,
    notice: StatusNoticeView,
    outcomes: Seq<AttemptOutcome>,
)
    requires
        outcomes.len() >= 2,
        outcomes[0] == AttemptOutcome::TransportFailure,
        outcomes[1] == AttemptOutcome::TransportFailure,
    ensures
        request_course(message, notice, outcomes).actions == seq![
            first_action(message, notice),
            retry_action(message),
            ActionView::Abort { error: FatalError::Transport { attempts: MAX_ATTEMPTS } },
        ],
        request_course(message, notice, outcomes).phase == (Phase::Fatal {
            error: FatalError::Transport { attempts: MAX_ATTEMPTS },
        }),
        send_count(request_course(message, notice, outcomes).actions) == 2,
{
    lemma_course_shapes(message, notice, outcomes);
    lemma_send_count_three(
        first_action(message, notice),
        retry_action(message),
        ActionView::Abort { error: FatalError::Transport { attempts: MAX_ATTEMPTS } },
    );
}

/// A failed setup is fatal at once: it is never retried.
pub proof fn lemma_config_failure_is_fatal(
    message: MessageView,
    notice: StatusNoticeView,
    outcomes: Seq<AttemptOutcome>,
)
    requires
        outcomes.len() >= 1,
        outcomes[0] == AttemptOutcome::ConfigFailure,
    ensures
        request_course(message, notice, outcomes).actions == seq![
            first_action(message, notice),
            ActionView::Abort { error: FatalError::Config },
        ],
        request_course(message, notice, outcomes).phase == (Phase::Fatal {
            error: FatalError::Config,
        }),
        send_count(request_course(message, notice, outcomes).actions) == 1,
{
    lemma_course_shapes(message, notice, outcomes);
    lemma_send_count_two(
        first_action(message, notice),
        ActionView::Abort { error: FatalError::Config },
    );
}

/// Whatever the outcomes: a request makes at least one send and at most
/// [`MAX_ATTEMPTS`]; every send carries the one extended message and
/// nothing else; only the first comes with a notice; and the phase it ends
/// in is one a request can be in.
pub proof fn lemma_course_invariants(
    message: MessageView,
    notice: StatusNoticeView,
    outcomes: Seq<AttemptOutcome>,
)
    ensures
        1 <= send_count(request_course(message, notice, outcomes).actions) <= MAX_ATTEMPTS,
        forall|i: int|
            #![trigger request_course(message, notice, outcomes).actions[i]]
            0 <= i < request_course(message, notice, outcomes).actions.len() ==> (
            request_course(message, notice, outcomes).actions[i] matches ActionView::Send {
                attempt,
                messages,
                notice: with,
            } ==> messages == seq![message] && attempt == i + 1 && (with is Some <==> i == 0)),
        phase_valid(request_course(message, notice, outcomes).phase),
{
    lemma_course_shapes(message, notice, outcomes);
    let first = first_action(message, notice);
    let retry = retry_action(message);
    if outcomes.len() == 0 {
        lemma_send_count_one(first);
    } else if !(outcomes[0] is TransportFailure) {
        lemma_send_count_two(first, closing_action(1, outcomes[0]));
    } else if outcomes.len() == 1 {
        lemma_send_count_two(first, retry);
    } else {
        lemma_send_count_three(first, retry, closing_action(2, outcomes[1]));
    }
}

/// A request has ended as soon as [`MAX_ATTEMPTS`] outcomes are in: with a
/// delivery or with a fatal error, and the last action says which.
pub proof fn lemma_request_ends(
    message: MessageView,
    notice: StatusNoticeView,
    outcomes: Seq<AttemptOutcome>,
)
    requires
        outcomes.len() >= MAX_ATTEMPTS,
    ensures
        !(request_course(message, notice, outcomes).phase is Requesting),
        request_course(message, notice, outcomes).phase is Done
            <==> request_course(message, notice, outcomes).actions.last() is Deliver,
        request_course(message, notice, outcomes).phase is Fatal
            <==> request_course(message, notice, outcomes).actions.last() is Abort,
{
    lemma_course_shapes(message, notice, outcomes);
}

} // verus!
