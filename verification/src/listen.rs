//! Continuous listening on one channel: an unbounded or duration-bounded
//! polling loop that renders every frame into log lines, treats the empty
//! queue as idle backoff, and tears the session down symmetrically on
//! every exit path, closing the trace file's framing whenever one was
//! opened.

use vstd::prelude::*;

use crate::errors::CanError;
use crate::events::CanLogFormat;
use crate::events::CapturedFrame;
use crate::events::FrameModel;
use crate::events::decode_frame_event;
use crate::events::event_is_frame;
use crate::events::frame_of_event;
use crate::events::is_frame_tag;
use crate::session::DriverAction;
use crate::session::PollReply;
use crate::session::PollSample;
use crate::session::SetupReplies;
use crate::session::count_actions;
use crate::session::lemma_count_push;
use crate::session::run_setup;
use crate::session::setup_error_reported;
use crate::session::setup_reaches_activation;
use crate::session::teardown_exact;
use crate::trace::asc_footer;
use crate::trace::asc_line_spec;
use crate::trace::render_asc_line;
use crate::trace::render_text_line;
use crate::trace::text_line_spec;
use crate::trace::asc_footer_line;

verus! {

/// Milliseconds the listening loop sleeps when the queue is empty.
pub const LISTEN_BACKOFF_MS: u64 = 5;

/// Whether a sample arrived at or after the optional duration bound; an
/// absent bound never ends the loop.
pub open spec fn listen_deadline_hit(duration_ms: Option<u64>, elapsed_us: u64) -> bool {
    duration_ms matches Some(d) && elapsed_us as int >= d as int * 1000
}

/// The frames the listening loop emits on a sample sequence, in arrival
/// order: every frame event before the duration bound, a failing receive,
/// or the end of the samples.
pub open spec fn listen_frames(duration_ms: Option<u64>, polls: Seq<PollSample>) -> Seq<FrameModel>
    decreases polls.len(),
{
    if polls.len() == 0 {
        Seq::empty()
    } else if listen_deadline_hit(duration_ms, polls[0].elapsed_us) {
        Seq::empty()
    } else {
        match polls[0].reply {
            PollReply::Event(e) => if is_frame_tag(e.tag) {
                seq![frame_of_event(e, polls[0].elapsed_us)] + listen_frames(
                    duration_ms,
                    polls.drop_first(),
                )
            } else {
                listen_frames(duration_ms, polls.drop_first())
            },
            PollReply::QueueEmpty => listen_frames(duration_ms, polls.drop_first()),
            PollReply::Failed(_) => Seq::empty(),
        }
    }
}

/// How the listening loop ends.
pub ghost enum ListenEnd {
    /// The duration elapsed, or no further sample arrived (an external
    /// stop observed between iterations).
    Finished,
    /// A receive call failed and the loop aborted.
    Erred { status: i16, description: Seq<char> },
}

/// The end the listening loop reaches on a sample sequence.
pub open spec fn listen_end(duration_ms: Option<u64>, polls: Seq<PollSample>) -> ListenEnd
    decreases polls.len(),
{
    if polls.len() == 0 {
        ListenEnd::Finished
    } else if listen_deadline_hit(duration_ms, polls[0].elapsed_us) {
        ListenEnd::Finished
    } else {
        match polls[0].reply {
            PollReply::Event(_) => listen_end(duration_ms, polls.drop_first()),
            PollReply::QueueEmpty => listen_end(duration_ms, polls.drop_first()),
            PollReply::Failed(r) => ListenEnd::Erred {
                status: r.status,
                description: r.description@,
            },
        }
    }
}

/// A zero duration ends the loop before any receive call: no frames, and
/// a clean finish.
pub proof fn lemma_zero_duration(polls: Seq<PollSample>)
    ensures
        listen_frames(Some(0u64), polls) == Seq::<FrameModel>::empty(),
        listen_end(Some(0u64), polls) == ListenEnd::Finished,
{
    if polls.len() > 0 {
        assert(listen_deadline_hit(Some(0u64), polls[0].elapsed_us));
    }
}

/// The models of the frames a run collected.
pub open spec fn frame_models_of(s: Seq<CapturedFrame>) -> Seq<FrameModel> {
    s.map_values(|f: CapturedFrame| f@)
}

/// What a listening run hands back: the commanded driver calls, the
/// captured frames in arrival order, the console line for each frame, the
/// complete contents of the log file (empty when none was opened), the
/// frame count, and the outcome.
pub struct ListenRun {
    pub actions: Vec<DriverAction>,
    pub frames: Vec<CapturedFrame>,
    pub console_lines: Vec<Vec<u8>>,
    pub file_lines: Vec<Vec<u8>>,
    pub frame_count: u64,
    pub outcome: Result<(), CanError>,
}

/// Copies one rendered line.
fn copy_line(v: &Vec<u8>) -> (r: Vec<u8>)
    ensures
        r@ == v@,
{
    let mut r: Vec<u8> = Vec::new();
    let mut i: usize = 0;
    while i < v.len()
        invariant
            i <= v@.len(),
            r@ == v@.take(i as int),
        decreases v@.len() - i,
    {
        r.push(v[i]);
        assert(r@ =~= v@.take(i + 1));
        i += 1;
    }
    assert(v@.take(v@.len() as int) =~= v@);
    r
}

/// Runs one continuous listening session against the given driver
/// replies: port setup in order, then the polling loop over the samples,
/// rendering one plain-text console line per frame and, when a log file
/// is present, the file's lines in the selected format.
///
/// The trace file keeps well-formed framing on every exit: in the
/// industry format its contents are the given header lines, one line per
/// frame, and the footer — also when the loop ends in an error or before
/// any frame. A missing log file (`file_present` false) degrades the run
/// to console-only output and is never an error. Deactivation-and-close
/// is commanded exactly once whenever activation succeeded, and the port
/// is closed exactly once whenever it was opened.
#[verifier::rlimit(30)]
pub fn run_listen(
    duration_ms: Option<u64>,
    format: CanLogFormat,
    file_present: bool,
    setup: &SetupReplies,
    header: &Vec<Vec<u8>>,
    polls: &Vec<PollSample>,
) -> (r: ListenRun)
    ensures
        teardown_exact(r.actions@, *setup),
        !setup_reaches_activation(*setup) ==> (r.outcome matches Err(e) && setup_error_reported(
            *setup,
            e,
        )),
        !setup_reaches_activation(*setup) ==> r.frames@.len() == 0 && r.console_lines@.len() == 0
            && r.file_lines@.len() == 0 && r.frame_count == 0,
        setup_reaches_activation(*setup) ==> {
            let fms = listen_frames(duration_ms, polls@);
            &&& r.frames@.len() == fms.len()
            &&& forall|k: int|
                0 <= k < fms.len() ==> #[trigger] r.frames@[k]@ == fms[k] && r.frames@[k]@.wf()
            &&& r.frame_count == fms.len()
            &&& r.console_lines@.len() == fms.len()
            &&& forall|k: int|
                0 <= k < fms.len() ==> #[trigger] r.console_lines@[k]@ == text_line_spec(
                    (k + 1) as u64,
                    fms[k],
                )
            &&& !file_present ==> r.file_lines@.len() == 0
            &&& file_present && format == CanLogFormat::Text ==> r.file_lines@.len() == fms.len()
                && forall|k: int|
                0 <= k < fms.len() ==> #[trigger] r.file_lines@[k]@ == text_line_spec(
                    (k + 1) as u64,
                    fms[k],
                )
            &&& file_present && format == CanLogFormat::Asc ==> {
                &&& r.file_lines@.len() == header@.len() + fms.len() + 1
                &&& forall|k: int|
                    0 <= k < header@.len() ==> #[trigger] r.file_lines@[k]@ == header@[k]@
                &&& forall|k: int|
                    0 <= k < fms.len() ==> #[trigger] r.file_lines@[header@.len() + k]@
                        == asc_line_spec(fms[k])
                &&& r.file_lines@[r.file_lines@.len() - 1]@ == asc_footer()
            }
            &&& match listen_end(duration_ms, polls@) {
                ListenEnd::Finished => r.outcome == Ok::<(), CanError>(()),
                ListenEnd::Erred { status, description } => (r.outcome matches Err(
                    CanError::PollFailed { status: s, description: d },
                ) && s == status && d@ == description),
            }
        },
{
    let mut actions: Vec<DriverAction> = Vec::new();
    match run_setup(&mut actions, setup) {
        Some(e) => {
            return ListenRun {
                actions,
                frames: Vec::new(),
                console_lines: Vec::new(),
                file_lines: Vec::new(),
                frame_count: 0,
                outcome: Err(e),
            };
        },
        None => {},
    }
    let is_asc = match format {
        CanLogFormat::Asc => true,
        CanLogFormat::Text => false,
    };
    let mut file_lines: Vec<Vec<u8>> = Vec::new();
    if file_present && is_asc {
        let mut h: usize = 0;
        while h < header.len()
            invariant
                h <= header@.len(),
                file_lines@.len() == h,
                forall|k: int| 0 <= k < h ==> #[trigger] file_lines@[k]@ == header@[k]@,
            decreases header@.len() - h,
        {
            file_lines.push(copy_line(&header[h]));
            h += 1;
        }
    }
    let mut frames: Vec<CapturedFrame> = Vec::new();
    let mut console_lines: Vec<Vec<u8>> = Vec::new();
    let mut frame_count: u64 = 0;
    let ghost all = listen_frames(duration_ms, polls@);
    let ghost the_end = listen_end(duration_ms, polls@);
    let ghost header_len: int = if file_present && is_asc {
        header@.len() as int
    } else {
        0
    };
    let mut i: usize = 0;
    proof {
        assert(polls@.skip(0) =~= polls@);
        assert(frame_models_of(frames@) =~= Seq::<FrameModel>::empty());
        assert(frame_models_of(frames@) + listen_frames(duration_ms, polls@.skip(0)) =~= all);
    }
    while i < polls.len()
        invariant
            i <= polls@.len(),
            setup_reaches_activation(*setup),
            all == listen_frames(duration_ms, polls@),
            the_end == listen_end(duration_ms, polls@),
            all == frame_models_of(frames@) + listen_frames(duration_ms, polls@.skip(i as int)),
            the_end == listen_end(duration_ms, polls@.skip(i as int)),
            frames@.len() <= i,
            frame_count == frames@.len(),
            forall|k: int|
                0 <= k < frames@.len() ==> (#[trigger] frames@[k]@).wf() && frames@[k]@
                    == frame_models_of(frames@)[k],
            console_lines@.len() == frames@.len(),
            forall|k: int|
                0 <= k < frames@.len() ==> #[trigger] console_lines@[k]@ == text_line_spec(
                    (k + 1) as u64,
                    frames@[k]@,
                ),
            header_len == if file_present && is_asc {
                header@.len() as int
            } else {
                0
            },
            is_asc == (format == CanLogFormat::Asc),
            !file_present ==> file_lines@.len() == 0,
            file_present && !is_asc ==> file_lines@.len() == frames@.len() && forall|k: int|
                0 <= k < frames@.len() ==> #[trigger] file_lines@[k]@ == text_line_spec(
                    (k + 1) as u64,
                    frames@[k]@,
                ),
            file_present && is_asc ==> file_lines@.len() == header@.len() + frames@.len() && (
            forall|k: int| 0 <= k < header@.len() ==> #[trigger] file_lines@[k]@ == header@[k]@)
                && (forall|k: int|
                0 <= k < frames@.len() ==> #[trigger] file_lines@[header@.len() + k]@
                    == asc_line_spec(frames@[k]@)),
            count_actions(actions@, DriverAction::DeactivateChannel) == 0,
            count_actions(actions@, DriverAction::ClosePort) == 0,
        decreases polls@.len() - i,
    {
        proof {
            assert(polls@.skip(i as int)[0] == polls@[i as int]);
            assert(polls@.skip(i as int).drop_first() =~= polls@.skip(i + 1));
        }
        let sample = &polls[i];
        let deadline = match duration_ms {
            Some(d) => (sample.elapsed_us as u128) >= (d as u128) * 1000,
            None => false,
        };
        if deadline {
            // the duration elapsed: leave the loop before another receive
            let ghost b = actions@;
            actions.push(DriverAction::DeactivateChannel);
            proof {
                lemma_count_push(b, DriverAction::DeactivateChannel, DriverAction::DeactivateChannel);
                lemma_count_push(b, DriverAction::DeactivateChannel, DriverAction::ClosePort);
            }
            let ghost c = actions@;
            actions.push(DriverAction::ClosePort);
            proof {
                lemma_count_push(c, DriverAction::ClosePort, DriverAction::DeactivateChannel);
                lemma_count_push(c, DriverAction::ClosePort, DriverAction::ClosePort);
            }
            if file_present && is_asc {
                file_lines.push(asc_footer_line());
            }
            proof {
                assert(frame_models_of(frames@) + listen_frames(
                    duration_ms,
                    polls@.skip(i as int),
                ) =~= frame_models_of(frames@));
            }
            return ListenRun {
                actions,
                frames,
                console_lines,
                file_lines,
                frame_count,
                outcome: Ok(()),
            };
        }
        let ghost a = actions@;
        actions.push(DriverAction::Receive);
        proof {
            lemma_count_push(a, DriverAction::Receive, DriverAction::DeactivateChannel);
            lemma_count_push(a, DriverAction::Receive, DriverAction::ClosePort);
        }
        match &sample.reply {
            PollReply::Event(e) => {
                if event_is_frame(e) {
                    let frame = decode_frame_event(e, sample.elapsed_us);
                    let ghost fm = frame@;
                    frame_count = frame_count + 1;
                    let line = render_text_line(frame_count, &frame);
                    if file_present {
                        if is_asc {
                            file_lines.push(render_asc_line(&frame));
                        } else {
                            file_lines.push(copy_line(&line));
                        }
                    }
                    console_lines.push(line);
                    let ghost old_frames = frames@;
                    frames.push(frame);
                    proof {
                        assert(frame_models_of(frames@) =~= frame_models_of(old_frames).push(fm));
                        assert(listen_frames(duration_ms, polls@.skip(i as int)) == seq![fm]
                            + listen_frames(duration_ms, polls@.skip(i + 1)));
                        assert(frame_models_of(old_frames) + (seq![fm] + listen_frames(
                            duration_ms,
                            polls@.skip(i + 1),
                        )) =~= frame_models_of(frames@) + listen_frames(
                            duration_ms,
                            polls@.skip(i + 1),
                        ));
                    }
                }
                // another recognized event: passed over without counting
            },
            PollReply::QueueEmpty => {
                let ghost a2 = actions@;
                actions.push(DriverAction::Sleep { ms: LISTEN_BACKOFF_MS });
                proof {
                    lemma_count_push(
                        a2,
                        DriverAction::Sleep { ms: LISTEN_BACKOFF_MS },
                        DriverAction::DeactivateChannel,
                    );
                    lemma_count_push(
                        a2,
                        DriverAction::Sleep { ms: LISTEN_BACKOFF_MS },
                        DriverAction::ClosePort,
                    );
                }
            },
            PollReply::Failed(reply) => {
                let ghost b = actions@;
                actions.push(DriverAction::DeactivateChannel);
                proof {
                    lemma_count_push(
                        b,
                        DriverAction::DeactivateChannel,
                        DriverAction::DeactivateChannel,
                    );
                    lemma_count_push(b, DriverAction::DeactivateChannel, DriverAction::ClosePort);
                }
                let ghost c = actions@;
                actions.push(DriverAction::ClosePort);
                proof {
                    lemma_count_push(c, DriverAction::ClosePort, DriverAction::DeactivateChannel);
                    lemma_count_push(c, DriverAction::ClosePort, DriverAction::ClosePort);
                }
                if file_present && is_asc {
                    file_lines.push(asc_footer_line());
                }
                proof {
                    assert(frame_models_of(frames@) + listen_frames(
                        duration_ms,
                        polls@.skip(i as int),
                    ) =~= frame_models_of(frames@));
                }
                return ListenRun {
                    actions,
                    frames,
                    console_lines,
                    file_lines,
                    frame_count,
                    outcome: Err(
                        CanError::PollFailed {
                            status: reply.status,
                            description: reply.description.clone(),
                        },
                    ),
                };
            },
        }
        i += 1;
    }
    proof {
        assert(polls@.skip(polls@.len() as int) =~= Seq::<PollSample>::empty());
        assert(frame_models_of(frames@) + listen_frames(
            duration_ms,
            polls@.skip(polls@.len() as int),
        ) =~= frame_models_of(frames@));
    }
    let ghost b = actions@;
    actions.push(DriverAction::DeactivateChannel);
    proof {
        lemma_count_push(b, DriverAction::DeactivateChannel, DriverAction::DeactivateChannel);
        lemma_count_push(b, DriverAction::DeactivateChannel, DriverAction::ClosePort);
    }
    let ghost c = actions@;
    actions.push(DriverAction::ClosePort);
    proof {
        lemma_count_push(c, DriverAction::ClosePort, DriverAction::DeactivateChannel);
        lemma_count_push(c, DriverAction::ClosePort, DriverAction::ClosePort);
    }
    if file_present && is_asc {
        file_lines.push(asc_footer_line());
    }
    ListenRun { actions, frames, console_lines, file_lines, frame_count, outcome: Ok(()) }
}

} // verus!
