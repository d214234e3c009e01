//! The per-channel capture session: which driver calls the engine makes,
//! in what order, and what each reply means.
//!
//! A session opens a port on the resolved channel mask, applies the
//! default bus configuration (output mode, then flexible-data-rate
//! timing), activates the channel, polls, and finally deactivates and
//! closes. Every decision is a pure function of the driver's replies; the
//! action list a run emits is the engine's side of the conversation, and
//! the teardown guarantee is stated over exactly that list.

use vstd::prelude::*;

use crate::errors::CanError;
use crate::events::CapturedFrame;
use crate::events::XLcanRxEvent;
use crate::events::XL_SUCCESS;
use crate::events::decode_frame_event;
use crate::events::event_is_frame;
use crate::events::frame_of_event;
use crate::events::is_frame_tag;

verus! {

/// Receive-queue size, in events, requested when a port is opened.
pub const RX_QUEUE_SIZE: u32 = 16384;

/// One driver reply: the numeric status and the driver's own description
/// of it (the caller obtains the text from the driver's string-lookup
/// facility; it travels with the status into any surfaced error).
pub struct DriverReply {
    pub status: i16,
    pub description: String,
}

/// The driver's reply to one receive call.
pub enum PollReply {
    /// The call succeeded and handed back this event.
    Event(XLcanRxEvent),
    /// Nothing was queued; the expected idle condition, not an error.
    QueueEmpty,
    /// The call failed with this status.
    Failed(DriverReply),
}

/// One driver call the engine commands its caller to perform.
#[derive(Copy, Clone, Debug, PartialEq, Eq, Structural)]
pub enum DriverAction {
    OpenPort,
    SetOutputMode,
    SetFdConfiguration,
    ActivateChannel,
    Receive,
    Sleep { ms: u64 },
    DeactivateChannel,
    ClosePort,
}

/// The replies to the four setup calls of a session, in call order; a
/// reply after the first failure is never read.
pub struct SetupReplies {
    pub open: DriverReply,
    pub output_mode: DriverReply,
    pub fd_config: DriverReply,
    pub activate: DriverReply,
}

/// One iteration's input to the polling loop: the wall-clock time elapsed
/// since the session started, and the driver's reply to the receive call.
pub struct PollSample {
    pub elapsed_us: u64,
    pub reply: PollReply,
}

/// Whether the setup replies open the port at all.
pub open spec fn port_opened(s: SetupReplies) -> bool {
    s.open.status == XL_SUCCESS
}

/// Whether the setup replies carry the session all the way through a
/// successful activation.
pub open spec fn setup_reaches_activation(s: SetupReplies) -> bool {
    &&& s.open.status == XL_SUCCESS
    &&& s.output_mode.status == XL_SUCCESS
    &&& s.fd_config.status == XL_SUCCESS
    &&& s.activate.status == XL_SUCCESS
}

/// How often an action occurs in an emitted action list.
pub open spec fn count_actions(s: Seq<DriverAction>, a: DriverAction) -> nat
    decreases s.len(),
{
    if s.len() == 0 {
        0
    } else {
        count_actions(s.drop_last(), a) + if s.last() == a {
            1nat
        } else {
            0nat
        }
    }
}

/// Appending one action raises exactly that action's count.
pub proof fn lemma_count_push(s: Seq<DriverAction>, x: DriverAction, a: DriverAction)
    ensures
        count_actions(s.push(x), a) == count_actions(s, a) + if x == a {
            1nat
        } else {
            0nat
        },
{
    assert(s.push(x).drop_last() =~= s);
    assert(s.push(x).last() == x);
}

/// The teardown obligation the session guarantees: the channel is
/// deactivated exactly once when and only when activation succeeded, and
/// the port is closed exactly once when and only when it was opened.
pub open spec fn teardown_exact(actions: Seq<DriverAction>, s: SetupReplies) -> bool {
    &&& count_actions(actions, DriverAction::DeactivateChannel) == (if setup_reaches_activation(s) {
        1nat
    } else {
        0nat
    })
    &&& count_actions(actions, DriverAction::ClosePort) == (if port_opened(s) {
        1nat
    } else {
        0nat
    })
}

/// Which of the four setup calls failed first, with its status and the
/// driver's description carried into the reported error.
pub open spec fn setup_error_reported(s: SetupReplies, e: CanError) -> bool {
    if s.open.status != XL_SUCCESS {
        e matches CanError::OpenPortFailed { status, description } && status == s.open.status
            && description@ == s.open.description@
    } else if s.output_mode.status != XL_SUCCESS {
        e matches CanError::OutputModeFailed { status, description } && status
            == s.output_mode.status && description@ == s.output_mode.description@
    } else if s.fd_config.status != XL_SUCCESS {
        e matches CanError::FdConfigurationFailed { status, description } && status
            == s.fd_config.status && description@ == s.fd_config.description@
    } else if s.activate.status != XL_SUCCESS {
        e matches CanError::ActivateFailed { status, description } && status == s.activate.status
            && description@ == s.activate.description@
    } else {
        false
    }
}

/// Judges the port-open reply: any status but success aborts the session
/// before anything was configured.
pub fn open_port_step(reply: &DriverReply) -> (r: Result<(), CanError>)
    ensures
        reply.status == XL_SUCCESS <==> r is Ok,
        reply.status != XL_SUCCESS ==> (r matches Err(CanError::OpenPortFailed {
            status,
            description,
        }) && status == reply.status && description@ == reply.description@),
{
    if reply.status == XL_SUCCESS {
        Ok(())
    } else {
        Err(
            CanError::OpenPortFailed {
                status: reply.status,
                description: reply.description.clone(),
            },
        )
    }
}

/// Judges the output-mode reply; failure aborts the just-opened port.
pub fn output_mode_step(reply: &DriverReply) -> (r: Result<(), CanError>)
    ensures
        reply.status == XL_SUCCESS <==> r is Ok,
        reply.status != XL_SUCCESS ==> (r matches Err(CanError::OutputModeFailed {
            status,
            description,
        }) && status == reply.status && description@ == reply.description@),
{
    if reply.status == XL_SUCCESS {
        Ok(())
    } else {
        Err(
            CanError::OutputModeFailed {
                status: reply.status,
                description: reply.description.clone(),
            },
        )
    }
}

/// Judges the flexible-data-rate configuration reply; failure aborts the
/// just-opened port.
pub fn fd_config_step(reply: &DriverReply) -> (r: Result<(), CanError>)
    ensures
        reply.status == XL_SUCCESS <==> r is Ok,
        reply.status != XL_SUCCESS ==> (r matches Err(CanError::FdConfigurationFailed {
            status,
            description,
        }) && status == reply.status && description@ == reply.description@),
{
    if reply.status == XL_SUCCESS {
        Ok(())
    } else {
        Err(
            CanError::FdConfigurationFailed {
                status: reply.status,
                description: reply.description.clone(),
            },
        )
    }
}

/// Judges the channel-activation reply; failure aborts the just-opened
/// port.
pub fn activate_step(reply: &DriverReply) -> (r: Result<(), CanError>)
    ensures
        reply.status == XL_SUCCESS <==> r is Ok,
        reply.status != XL_SUCCESS ==> (r matches Err(CanError::ActivateFailed {
            status,
            description,
        }) && status == reply.status && description@ == reply.description@),
{
    if reply.status == XL_SUCCESS {
        Ok(())
    } else {
        Err(
            CanError::ActivateFailed {
                status: reply.status,
                description: reply.description.clone(),
            },
        )
    }
}

/// Walks the four setup replies in call order, recording each commanded
/// driver call, and reports the first failure; a failure after the open
/// commands the close of the just-opened port, and no path here commands
/// a deactivation.
pub fn run_setup(actions: &mut Vec<DriverAction>, setup: &SetupReplies) -> (r: Option<CanError>)
    requires
        old(actions)@.len() == 0,
    ensures
        (r is None) <==> setup_reaches_activation(*setup),
        r matches Some(e) ==> setup_error_reported(*setup, e),
        count_actions(final(actions)@, DriverAction::DeactivateChannel) == 0,
        count_actions(final(actions)@, DriverAction::ClosePort) == (if port_opened(*setup)
            && !setup_reaches_activation(*setup) {
            1nat
        } else {
            0nat
        }),
{
    let ghost a0 = actions@;
    proof {
        assert(a0 =~= Seq::<DriverAction>::empty());
        assert(count_actions(Seq::<DriverAction>::empty(), DriverAction::DeactivateChannel) == 0);
        assert(count_actions(Seq::<DriverAction>::empty(), DriverAction::ClosePort) == 0);
    }
    actions.push(DriverAction::OpenPort);
    proof {
        lemma_count_push(a0, DriverAction::OpenPort, DriverAction::DeactivateChannel);
        lemma_count_push(a0, DriverAction::OpenPort, DriverAction::ClosePort);
    }
    match open_port_step(&setup.open) {
        Err(e) => {
            return Some(e);
        },
        Ok(()) => {},
    }
    let ghost a1 = actions@;
    actions.push(DriverAction::SetOutputMode);
    proof {
        lemma_count_push(a1, DriverAction::SetOutputMode, DriverAction::DeactivateChannel);
        lemma_count_push(a1, DriverAction::SetOutputMode, DriverAction::ClosePort);
    }
    match output_mode_step(&setup.output_mode) {
        Err(e) => {
            let ghost a = actions@;
            actions.push(DriverAction::ClosePort);
            proof {
                lemma_count_push(a, DriverAction::ClosePort, DriverAction::DeactivateChannel);
                lemma_count_push(a, DriverAction::ClosePort, DriverAction::ClosePort);
            }
            return Some(e);
        },
        Ok(()) => {},
    }
    let ghost a2 = actions@;
    actions.push(DriverAction::SetFdConfiguration);
    proof {
        lemma_count_push(a2, DriverAction::SetFdConfiguration, DriverAction::DeactivateChannel);
        lemma_count_push(a2, DriverAction::SetFdConfiguration, DriverAction::ClosePort);
    }
    match fd_config_step(&setup.fd_config) {
        Err(e) => {
            let ghost a = actions@;
            actions.push(DriverAction::ClosePort);
            proof {
                lemma_count_push(a, DriverAction::ClosePort, DriverAction::DeactivateChannel);
                lemma_count_push(a, DriverAction::ClosePort, DriverAction::ClosePort);
            }
            return Some(e);
        },
        Ok(()) => {},
    }
    let ghost a3 = actions@;
    actions.push(DriverAction::ActivateChannel);
    proof {
        lemma_count_push(a3, DriverAction::ActivateChannel, DriverAction::DeactivateChannel);
        lemma_count_push(a3, DriverAction::ActivateChannel, DriverAction::ClosePort);
    }
    match activate_step(&setup.activate) {
        Err(e) => {
            let ghost a = actions@;
            actions.push(DriverAction::ClosePort);
            proof {
                lemma_count_push(a, DriverAction::ClosePort, DriverAction::DeactivateChannel);
                lemma_count_push(a, DriverAction::ClosePort, DriverAction::ClosePort);
            }
            return Some(e);
        },
        Ok(()) => {},
    }
    None
}

/// Opens the process-wide driver session: the driver's open call either
/// succeeds or the engine reports the status with its description.
pub fn try_open_driver(reply: &DriverReply) -> (r: Result<(), CanError>)
    ensures
        reply.status == XL_SUCCESS <==> r is Ok,
        reply.status != XL_SUCCESS ==> (r matches Err(CanError::DriverOpenFailed {
            status,
            description,
        }) && status == reply.status && description@ == reply.description@),
{
    if reply.status == XL_SUCCESS {
        Ok(())
    } else {
        Err(
            CanError::DriverOpenFailed {
                status: reply.status,
                description: reply.description.clone(),
            },
        )
    }
}

/// What the polling loop does with one receive reply.
pub enum PollDecision {
    /// A frame arrived: report it (a single-shot capture then stops, a
    /// listening loop keeps polling).
    EmitFrame(CapturedFrame),
    /// Another recognized event: log it for diagnostic visibility and
    /// keep polling; it does not count as a received frame.
    NoteEvent { tag: u16, channel_index: u16 },
    /// Another recognized event, passed over silently; keep polling.
    Ignore,
    /// The queue was empty: sleep this long and keep polling.
    Backoff { ms: u64 },
    /// The receive call failed: tear the session down and surface this.
    Abort(CanError),
}

/// Decides one iteration of the bounded single-shot loop: the first
/// frame stops the capture, other events are logged, the empty queue
/// backs off, and a failing receive aborts.
pub fn capture_poll_step(reply: &PollReply, elapsed_us: u64) -> (d: PollDecision)
    ensures
        forall|e: XLcanRxEvent|
            reply == PollReply::Event(e) && is_frame_tag(e.tag) ==> (d matches
                PollDecision::EmitFrame(f) && f@ == frame_of_event(e, elapsed_us)),
        forall|e: XLcanRxEvent|
            reply == PollReply::Event(e) && !is_frame_tag(e.tag) ==> d == (PollDecision::NoteEvent {
                tag: e.tag,
                channel_index: e.channelIndex,
            }),
        reply is QueueEmpty ==> d == (PollDecision::Backoff { ms: 10 }),
        forall|r: DriverReply|
            reply == PollReply::Failed(r) ==> (d matches PollDecision::Abort(
                CanError::PollFailed { status, description },
            ) && status == r.status && description@ == r.description@),
{
    match reply {
        PollReply::Event(e) => {
            if event_is_frame(e) {
                PollDecision::EmitFrame(decode_frame_event(e, elapsed_us))
            } else {
                PollDecision::NoteEvent { tag: e.tag, channel_index: e.channelIndex }
            }
        },
        PollReply::QueueEmpty => PollDecision::Backoff { ms: 10 },
        PollReply::Failed(r) => PollDecision::Abort(
            CanError::PollFailed { status: r.status, description: r.description.clone() },
        ),
    }
}

/// Decides one iteration of the continuous listening loop: every frame is
/// reported and polling continues, other events pass silently, the empty
/// queue backs off for a shorter interval, and a failing receive aborts.
pub fn listen_poll_step(reply: &PollReply, elapsed_us: u64) -> (d: PollDecision)
    ensures
        forall|e: XLcanRxEvent|
            reply == PollReply::Event(e) && is_frame_tag(e.tag) ==> (d matches
                PollDecision::EmitFrame(f) && f@ == frame_of_event(e, elapsed_us)),
        forall|e: XLcanRxEvent|
            reply == PollReply::Event(e) && !is_frame_tag(e.tag) ==> d is Ignore,
        reply is QueueEmpty ==> d == (PollDecision::Backoff { ms: 5 }),
        forall|r: DriverReply|
            reply == PollReply::Failed(r) ==> (d matches PollDecision::Abort(
                CanError::PollFailed { status, description },
            ) && status == r.status && description@ == r.description@),
{
    match reply {
        PollReply::Event(e) => {
            if event_is_frame(e) {
                PollDecision::EmitFrame(decode_frame_event(e, elapsed_us))
            } else {
                PollDecision::Ignore
            }
        },
        PollReply::QueueEmpty => PollDecision::Backoff { ms: 5 },
        PollReply::Failed(r) => PollDecision::Abort(
            CanError::PollFailed { status: r.status, description: r.description.clone() },
        ),
    }
}

} // verus!
