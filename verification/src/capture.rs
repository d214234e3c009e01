//! Single-shot capture on one channel: a bounded polling loop that stops
//! at the first frame, treats the empty queue as an idle condition with a
//! short backoff, and guarantees symmetric teardown of the port on every
//! exit path.

use vstd::prelude::*;

use crate::errors::CanError;
use crate::events::CapturedFrame;
use crate::events::XLcanRxEvent;
use crate::events::FrameModel;
use crate::events::decode_frame_event;
use crate::events::event_is_frame;
use crate::events::frame_of_event;
use crate::events::is_frame_tag;
use crate::session::DriverAction;
use crate::session::PollReply;
use crate::session::PollSample;
use crate::session::SetupReplies;
use crate::session::count_actions;
use crate::session::lemma_count_push;
use crate::session::run_setup;
use crate::session::setup_error_reported;
use crate::session::port_opened;
use crate::session::setup_reaches_activation;
use crate::session::teardown_exact;

verus! {

/// Milliseconds the single-shot loop sleeps when the queue is empty.
pub const CAPTURE_BACKOFF_MS: u64 = 10;

/// Whether a sample arrived at or after the single-shot time budget.
pub open spec fn capture_deadline_hit(timeout_ms: u64, elapsed_us: u64) -> bool {
    elapsed_us as int >= timeout_ms as int * 1000
}

/// How a bounded single-shot polling loop ends, given the samples the
/// driver would serve in order.
pub ghost enum CaptureEnd {
    /// The budget ran out (or no further sample arrived) before a frame.
    TimedOut,
    /// A frame event arrived and the loop stopped with it.
    Got { frame: FrameModel },
    /// A receive call failed and the loop aborted.
    Erred { status: i16, description: Seq<char> },
}

/// The end the single-shot loop reaches on a sample sequence: the first
/// frame event wins, other events and empty-queue replies are passed
/// over, a failing receive aborts, and the budget check stands before
/// every receive call.
pub open spec fn capture_end(timeout_ms: u64, polls: Seq<PollSample>) -> CaptureEnd
    decreases polls.len(),
{
    if polls.len() == 0 {
        CaptureEnd::TimedOut
    } else if capture_deadline_hit(timeout_ms, polls[0].elapsed_us) {
        CaptureEnd::TimedOut
    } else {
        match polls[0].reply {
            PollReply::Event(e) => if is_frame_tag(e.tag) {
                CaptureEnd::Got { frame: frame_of_event(e, polls[0].elapsed_us) }
            } else {
                capture_end(timeout_ms, polls.drop_first())
            },
            PollReply::QueueEmpty => capture_end(timeout_ms, polls.drop_first()),
            PollReply::Failed(r) => CaptureEnd::Erred {
                status: r.status,
                description: r.description@,
            },
        }
    }
}

/// Empty-queue replies are the expected idle condition, never an error:
/// with the budget still open, the single-shot loop passes any number of
/// them and stops exactly on the frame event that follows.
pub proof fn lemma_empty_queue_is_not_an_error(
    timeout_ms: u64,
    polls: Seq<PollSample>,
    k: int,
    e: XLcanRxEvent,
)
    requires
        0 <= k < polls.len(),
        forall|i: int| 0 <= i < k ==> (#[trigger] polls[i].reply) is QueueEmpty,
        forall|i: int| 0 <= i <= k ==> !capture_deadline_hit(timeout_ms, (#[trigger] polls[i]).elapsed_us),
        polls[k].reply == PollReply::Event(e),
        is_frame_tag(e.tag),
    ensures
        capture_end(timeout_ms, polls) == (CaptureEnd::Got {
            frame: frame_of_event(e, polls[k].elapsed_us),
        }),
    decreases k,
{
    if k == 0 {
    } else {
        assert(polls[0].reply is QueueEmpty);
        assert(!capture_deadline_hit(timeout_ms, polls[0].elapsed_us));
        let rest = polls.drop_first();
        assert(forall|i: int| 0 <= i < k - 1 ==> (#[trigger] rest[i].reply) is QueueEmpty);
        assert(forall|i: int|
            0 <= i <= k - 1 ==> !capture_deadline_hit(timeout_ms, (#[trigger] rest[i]).elapsed_us));
        assert(rest[k - 1] == polls[k]);
        lemma_empty_queue_is_not_an_error(timeout_ms, rest, k - 1, e);
    }
}

/// What a single-shot capture run hands back: the driver calls it
/// commanded in order, the frame it stopped on if any, and the outcome
/// the caller reports.
pub struct CaptureRun {
    pub actions: Vec<DriverAction>,
    pub frame: Option<CapturedFrame>,
    pub outcome: Result<bool, CanError>,
}

/// Runs one bounded single-shot capture session against the given driver
/// replies: port setup in order (open, output mode, flexible-data-rate
/// configuration, activation), then the polling loop over the samples.
///
/// Deactivation-and-close is commanded exactly once whenever activation
/// succeeded — also when the polling loop errors immediately — and the
/// port is closed exactly once whenever it was opened.
pub fn run_capture(timeout_ms: u64, setup: &SetupReplies, polls: &Vec<PollSample>) -> (r:
    CaptureRun)
    ensures
        teardown_exact(r.actions@, *setup),
        !setup_reaches_activation(*setup) ==> (r.outcome matches Err(e) && setup_error_reported(
            *setup,
            e,
        )),
        setup_reaches_activation(*setup) ==> match capture_end(timeout_ms, polls@) {
            CaptureEnd::TimedOut => r.outcome == Ok::<bool, CanError>(false) && r.frame is None,
            CaptureEnd::Got { frame } => r.outcome == Ok::<bool, CanError>(true) && (r.frame
                matches Some(f) && f@ == frame && f@.wf()),
            CaptureEnd::Erred { status, description } => (r.outcome matches Err(
                CanError::PollFailed { status: s, description: d },
            ) && s == status && d@ == description),
        },
        !setup_reaches_activation(*setup) ==> r.frame is None,
{
    let mut actions: Vec<DriverAction> = Vec::new();
    match run_setup(&mut actions, setup) {
        Some(e) => {
            return CaptureRun { actions, frame: None, outcome: Err(e) };
        },
        None => {},
    }
    let mut i: usize = 0;
    proof {
        assert(polls@.skip(0) =~= polls@);
    }
    while i < polls.len()
        invariant
            i <= polls@.len(),
            setup_reaches_activation(*setup),
            capture_end(timeout_ms, polls@) == capture_end(timeout_ms, polls@.skip(i as int)),
            count_actions(actions@, DriverAction::DeactivateChannel) == 0,
            count_actions(actions@, DriverAction::ClosePort) == 0,
        decreases polls@.len() - i,
    {
        proof {
            assert(polls@.skip(i as int)[0] == polls@[i as int]);
            assert(polls@.skip(i as int).drop_first() =~= polls@.skip(i + 1));
        }
        let sample = &polls[i];
        if (sample.elapsed_us as u128) >= (timeout_ms as u128) * 1000 {
            // budget exhausted before this receive: tear down, no frame
            let ghost b = actions@;
            actions.push(DriverAction::DeactivateChannel);
            proof {
                lemma_count_push(b, DriverAction::DeactivateChannel, DriverAction::DeactivateChannel);
                lemma_count_push(b, DriverAction::DeactivateChannel, DriverAction::ClosePort);
            }
            let ghost c = actions@;
            actions.push(DriverAction::ClosePort);
            proof {
                lemma_count_push(c, DriverAction::ClosePort, DriverAction::DeactivateChannel);
                lemma_count_push(c, DriverAction::ClosePort, DriverAction::ClosePort);
            }
            return CaptureRun { actions, frame: None, outcome: Ok(false) };
        }
        let ghost a = actions@;
        actions.push(DriverAction::Receive);
        proof {
            lemma_count_push(a, DriverAction::Receive, DriverAction::DeactivateChannel);
            lemma_count_push(a, DriverAction::Receive, DriverAction::ClosePort);
        }
        match &sample.reply {
            PollReply::Event(e) => {
                if event_is_frame(e) {
                    let frame = decode_frame_event(e, sample.elapsed_us);
                    let ghost b = actions@;
                    actions.push(DriverAction::DeactivateChannel);
                    proof {
                        lemma_count_push(
                            b,
                            DriverAction::DeactivateChannel,
                            DriverAction::DeactivateChannel,
                        );
                        lemma_count_push(b, DriverAction::DeactivateChannel, DriverAction::ClosePort);
                    }
                    let ghost c = actions@;
                    actions.push(DriverAction::ClosePort);
                    proof {
                        lemma_count_push(c, DriverAction::ClosePort, DriverAction::DeactivateChannel);
                        lemma_count_push(c, DriverAction::ClosePort, DriverAction::ClosePort);
                    }
                    return CaptureRun { actions, frame: Some(frame), outcome: Ok(true) };
                }
                // another recognized event: visible to diagnostics, not a frame
            },
            PollReply::QueueEmpty => {
                let ghost a = actions@;
                actions.push(DriverAction::Sleep { ms: CAPTURE_BACKOFF_MS });
                proof {
                    lemma_count_push(
                        a,
                        DriverAction::Sleep { ms: CAPTURE_BACKOFF_MS },
                        DriverAction::DeactivateChannel,
                    );
                    lemma_count_push(
                        a,
                        DriverAction::Sleep { ms: CAPTURE_BACKOFF_MS },
                        DriverAction::ClosePort,
                    );
                }
            },
            PollReply::Failed(reply) => {
                let ghost b = actions@;
                actions.push(DriverAction::DeactivateChannel);
                proof {
                    lemma_count_push(
                        b,
                        DriverAction::DeactivateChannel,
                        DriverAction::DeactivateChannel,
                    );
                    lemma_count_push(b, DriverAction::DeactivateChannel, DriverAction::ClosePort);
                }
                let ghost c = actions@;
                actions.push(DriverAction::ClosePort);
                proof {
                    lemma_count_push(c, DriverAction::ClosePort, DriverAction::DeactivateChannel);
                    lemma_count_push(c, DriverAction::ClosePort, DriverAction::ClosePort);
                }
                return CaptureRun {
                    actions,
                    frame: None,
                    outcome: Err(
                        CanError::PollFailed {
                            status: reply.status,
                            description: reply.description.clone(),
                        },
                    ),
                };
            },
        }
        i += 1;
    }
    proof {
        assert(polls@.skip(polls@.len() as int) =~= Seq::<PollSample>::empty());
        assert(capture_end(timeout_ms, polls@) is TimedOut);
    }
    let ghost b = actions@;
    actions.push(DriverAction::DeactivateChannel);
    proof {
        lemma_count_push(b, DriverAction::DeactivateChannel, DriverAction::DeactivateChannel);
        lemma_count_push(b, DriverAction::DeactivateChannel, DriverAction::ClosePort);
    }
    let ghost c = actions@;
    actions.push(DriverAction::ClosePort);
    proof {
        lemma_count_push(c, DriverAction::ClosePort, DriverAction::DeactivateChannel);
        lemma_count_push(c, DriverAction::ClosePort, DriverAction::ClosePort);
    }
    CaptureRun { actions, frame: None, outcome: Ok(false) }
}

} // verus!
