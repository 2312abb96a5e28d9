//! What holds of a connection over whole runs of events, whatever the
//! events are and however they interleave.

use crate::command::{decode_text, last_command};
use crate::connection::{
    after_frame, command_answer, directive_for, offer_answer, receive_answer, Activity, Cause,
    ConnectionView, Directive, Exit, InboundFrame, LiveSet, Offer, Pending, Phase, Received,
};
use crate::poller::{polled_snapshot, PollOutcome};
use crate::queue::{lemma_delivered_in_arrival_order, lemma_fifo_order, run, QueueEvent};
use crate::snapshot::{empty_snapshot, frame_text, MusicInfo};
use vstd::prelude::*;

verus! {

/// The connection after the inbound pump read a burst of text frames.
pub open spec fn after_texts(s: ConnectionView, texts: Seq<Seq<char>>) -> ConnectionView
    decreases texts.len(),
{
    if texts.len() == 0 {
        s
    } else {
        after_texts(s, texts.drop_last()).after_text(texts.last())
    }
}

/// The connection after a run of traffic between the poller, which offers
/// snapshots, and the outbound pump, which asks for frames.
pub open spec fn after_traffic(
    s: ConnectionView,
    events: Seq<QueueEvent<MusicInfo>>,
) -> ConnectionView
    decreases events.len(),
{
    if events.len() == 0 {
        s
    } else {
        let before = after_traffic(s, events.drop_last());
        match events.last() {
            QueueEvent::Offer(snapshot) => before.after_snapshot_offered(snapshot),
            QueueEvent::Take => before.after_frame_taken(),
        }
    }
}

/// The frames that the outbound pump was handed during a run of traffic, in
/// the order in which it got them.
pub open spec fn frames_handed_out(
    s: ConnectionView,
    events: Seq<QueueEvent<MusicInfo>>,
) -> Seq<Seq<char>>
    decreases events.len(),
{
    if events.len() == 0 {
        Seq::empty()
    } else {
        let before = after_traffic(s, events.drop_last());
        let earlier = frames_handed_out(s, events.drop_last());
        match events.last() {
            QueueEvent::Take if before.phase == Phase::Running && before.queue.len() > 0 => {
                earlier.push(frame_text(before.queue[0]@))
            },
            _ => earlier,
        }
    }
}

/// The connection after a sequence of activities ended, one after another.
pub open spec fn after_exits(s: ConnectionView, exits: Seq<(Activity, Exit)>) -> ConnectionView
    decreases exits.len(),
{
    if exits.len() == 0 {
        s
    } else {
        after_exits(s, exits.drop_last()).after_exit(exits.last().0, exits.last().1)
    }
}

/// Whether the end of the activity `who` is among `exits`.
pub open spec fn reported(exits: Seq<(Activity, Exit)>, who: Activity) -> bool
    decreases exits.len(),
{
    exits.len() > 0 && (exits.last().0 == who || reported(exits.drop_last(), who))
}

/// Last write wins: of a burst of text frames that reaches a running
/// connection before the dispatcher asks again, only the most recent command
/// is handed out, and only once. A burst without a command changes nothing.
pub proof fn lemma_latest_command_wins(s: ConnectionView, texts: Seq<Seq<char>>)
    requires
        s.phase == Phase::Running,
    ensures
        after_texts(s, texts) == (ConnectionView {
            pending: match last_command(texts) {
                Some(command) => Some(command),
                None => s.pending,
            },
            ..s
        }),
        last_command(texts) matches Some(command) ==> command_answer(after_texts(s, texts))
            == Pending::Command(command),
        command_answer(after_texts(s, texts).after_command_taken()) == Pending::Empty,
    decreases texts.len(),
{
    if texts.len() > 0 {
        lemma_latest_command_wins(s, texts.drop_last());
    }
}

/// Frames that hold no command leave no trace: in whatever phase, the
/// connection after them is the connection before them, so nothing reaches
/// the dispatcher and nothing ends.
pub proof fn lemma_unknown_frames_change_nothing(s: ConnectionView, texts: Seq<Seq<char>>)
    requires
        forall|i: int| 0 <= i < texts.len() ==> decode_text(#[trigger] texts[i]) is None,
    ensures
        after_texts(s, texts) == s,
    decreases texts.len(),
{
    if texts.len() > 0 {
        lemma_unknown_frames_change_nothing(s, texts.drop_last());
    }
}

/// Fail fast: when any one activity of a running connection ends, in
/// whatever way, that single step takes the connection to `ShuttingDown`
/// and asks for the three others to be stopped.
pub proof fn lemma_first_exit_stops_the_rest(s: ConnectionView, who: Activity, how: Exit)
    requires
        s.well_formed(),
        s.phase == Phase::Running,
    ensures
        s.after_exit(who, how).phase == Phase::ShuttingDown,
        s.after_exit(who, how).live == LiveSet::all().without(who),
        s.after_exit(who, how).cause == Some(Cause::Exited(who, how)),
        directive_for(s, s.after_exit(who, how)) == Directive::StopActivities,
        s.after_exit(who, how).well_formed(),
{
}

/// While activities end one by one, a connection stays well formed, is
/// closed exactly when none is left, and has live exactly those activities
/// whose end was not reported.
pub proof fn lemma_exits_account_for_live(s: ConnectionView, exits: Seq<(Activity, Exit)>)
    requires
        s.well_formed(),
        s.phase == Phase::Running || s.phase == Phase::ShuttingDown,
    ensures
        after_exits(s, exits).well_formed(),
        after_exits(s, exits).phase == Phase::Running <==> s.phase == Phase::Running && exits.len()
            == 0,
        after_exits(s, exits).phase != Phase::Idle,
        after_exits(s, exits).phase == Phase::Closed <==> after_exits(s, exits).live.is_empty(),
        forall|a: Activity| #[trigger]
            after_exits(s, exits).live.contains(a) <==> s.live.contains(a) && !reported(exits, a),
    decreases exits.len(),
{
    if exits.len() > 0 {
        let front = exits.drop_last();
        lemma_exits_account_for_live(s, front);
        let before = after_exits(s, front);
        assert forall|a: Activity| #[trigger]
            after_exits(s, exits).live.contains(a) <==> s.live.contains(a) && !reported(
                exits,
                a,
            ) by {
            assert(before.live.contains(a) <==> s.live.contains(a) && !reported(front, a));
        }
    }
}

/// The cascade ends in `Closed`: once the end of every activity that was
/// live has been reported, in whatever order and in whatever way each of
/// them ended, the connection is closed and nothing is live.
pub proof fn lemma_shutdown_reaches_closed(s: ConnectionView, exits: Seq<(Activity, Exit)>)
    requires
        s.well_formed(),
        s.phase == Phase::Running || s.phase == Phase::ShuttingDown,
        forall|a: Activity| #[trigger] s.live.contains(a) ==> reported(exits, a),
    ensures
        after_exits(s, exits).phase == Phase::Closed,
        after_exits(s, exits).live == LiveSet::none(),
{
    lemma_exits_account_for_live(s, exits);
    let t = after_exits(s, exits);
    assert(!t.live.contains(Activity::Poller));
    assert(!t.live.contains(Activity::OutboundPump));
    assert(!t.live.contains(Activity::InboundPump));
    assert(!t.live.contains(Activity::Dispatcher));
}

/// Cancellation reaches every connection: whatever a connection was doing
/// when the scope above it was cancelled, it runs no more afterwards, and a
/// connection that was running is told to stop all of its activities.
pub proof fn lemma_cancel_ends_running(s: ConnectionView)
    requires
        s.well_formed(),
    ensures
        s.after_cancel().well_formed(),
        s.after_cancel().phase == Phase::ShuttingDown || s.after_cancel().phase == Phase::Closed,
        s.phase == Phase::Running ==> directive_for(s, s.after_cancel())
            == Directive::StopActivities && s.after_cancel().live == LiveSet::all(),
{
}

/// Once a connection has left `Running`, none of its activities is handed
/// any more work: each is told to end, and neither the queue nor the
/// waiting command changes again.
pub proof fn lemma_no_work_after_running(
    s: ConnectionView,
    snapshot: MusicInfo,
    frame: InboundFrame,
)
    requires
        s.phase != Phase::Running,
    ensures
        offer_answer(s, snapshot) == Offer::Stopped(snapshot),
        receive_answer(s, frame) == Received::Stopped,
        command_answer(s) == Pending::Stopped,
        s.after_snapshot_offered(snapshot) == s,
        s.after_frame_taken() == s,
        after_frame(s, frame) == s,
        s.after_command_taken() == s,
{
}

/// Wire order is poll order: on a running connection, whatever way offers
/// and requests for frames interleave, the k-th frame handed to the outbound
/// pump is the frame of the k-th snapshot that entered the queue. No frame
/// is reordered, repeated, merged with another or left out, and only the
/// queue changes.
pub proof fn lemma_frames_in_poll_order(s: ConnectionView, events: Seq<QueueEvent<MusicInfo>>)
    requires
        s.phase == Phase::Running,
        s.queue.len() == 0,
    ensures
        after_traffic(s, events) == (ConnectionView { queue: run(s.capacity, events).queue, ..s }),
        frames_handed_out(s, events).len() == run(s.capacity, events).delivered.len(),
        frames_handed_out(s, events).len() <= run(s.capacity, events).accepted.len(),
        forall|k: int|
            0 <= k < frames_handed_out(s, events).len() ==> #[trigger] frames_handed_out(
                s,
                events,
            )[k] == frame_text(run(s.capacity, events).accepted[k]@),
    decreases events.len(),
{
    lemma_fifo_order(s.capacity, events);
    if events.len() > 0 {
        let front = events.drop_last();
        lemma_frames_in_poll_order(s, front);
        lemma_fifo_order(s.capacity, front);
    } else {
        assert(s.queue =~= Seq::<MusicInfo>::empty());
    }
}

/// No session, no media: while every snapshot that enters the queue comes
/// from a poll that found no session, every frame that leaves it is the
/// frame of the empty snapshot.
pub proof fn lemma_no_session_frames_are_empty(
    capacity: nat,
    events: Seq<QueueEvent<MusicInfo>>,
    k: int,
)
    requires
        forall|i: int|
            0 <= i < events.len() ==> (#[trigger] events[i] matches QueueEvent::Offer(snapshot)
                ==> polled_snapshot(PollOutcome::NoSession) == Some(snapshot@)),
        0 <= k < run(capacity, events).delivered.len(),
    ensures
        frame_text(run(capacity, events).delivered[k]@) == frame_text(empty_snapshot()),
{
    lemma_delivered_in_arrival_order(capacity, events, k);
    lemma_accepted_were_offered(capacity, events, k);
}

/// Every item that a queue let in was offered to it.
proof fn lemma_accepted_were_offered<T>(capacity: nat, events: Seq<QueueEvent<T>>, k: int)
    requires
        0 <= k < run(capacity, events).accepted.len(),
    ensures
        exists|i: int|
            0 <= i < events.len() && #[trigger] events[i] == QueueEvent::Offer(
                run(capacity, events).accepted[k],
            ),
    decreases events.len(),
{
    if events.len() > 0 {
        let front = events.drop_last();
        let before = run(capacity, front);
        if k < before.accepted.len() {
            lemma_accepted_were_offered(capacity, front, k);
        } else {
            assert(events[events.len() - 1] == QueueEvent::Offer(
                run(capacity, events).accepted[k],
            ));
        }
    }
}

} // verus!
