use media_bridge::command::Command;
use media_bridge::connection::{
    Activity, Cause, Connection, Directive, Exit, InboundFrame, Offer, Outbound, Pending, Phase,
    Received, OUTBOUND_CAPACITY,
};
use media_bridge::poller::{poll_step, PollOutcome, PollStep, POLL_INTERVAL_MS};
use media_bridge::snapshot::{MusicInfo, PlaybackStatus, SessionDetails};

const ALL: [Activity; 4] = [
    Activity::Poller,
    Activity::OutboundPump,
    Activity::InboundPump,
    Activity::Dispatcher,
];

fn titled(title: &str) -> MusicInfo {
    let mut m = MusicInfo::none();
    m.song_name = String::from(title);
    m
}

fn running(capacity: usize) -> Connection {
    let mut c = Connection::new(capacity);
    assert_eq!(c.start(), Directive::SpawnActivities);
    c
}

fn text(s: &str) -> InboundFrame {
    InboundFrame::Text(String::from(s))
}

#[test]
fn defaults_match_the_protocol() {
    assert_eq!(OUTBOUND_CAPACITY, 10);
    assert_eq!(POLL_INTERVAL_MS, 200);
}

#[test]
fn new_connection_is_idle_with_nothing_live() {
    let c = Connection::new(10);
    assert_eq!(c.phase(), Phase::Idle);
    assert_eq!(c.cause(), None);
    assert_eq!(c.queued(), 0);
    assert_eq!(c.capacity(), 10);
    assert!(!c.has_pending_command());
    for who in ALL {
        assert!(!c.is_live(who));
    }
}

#[test]
fn start_brings_all_four_activities_to_life_once() {
    let mut c = Connection::new(10);
    assert_eq!(c.start(), Directive::SpawnActivities);
    assert_eq!(c.phase(), Phase::Running);
    for who in ALL {
        assert!(c.is_live(who));
    }
    assert_eq!(c.start(), Directive::Nothing);
    assert_eq!(c.phase(), Phase::Running);
}

#[test]
fn idle_connection_hands_out_no_work() {
    let mut c = Connection::new(10);
    assert_eq!(c.offer_snapshot(titled("a")), Offer::Stopped(titled("a")));
    assert_eq!(c.next_frame(), Outbound::Stopped);
    assert_eq!(c.receive(&text("toggle")), Received::Stopped);
    assert_eq!(c.next_command(), Pending::Stopped);
    assert_eq!(c.on_exit(Activity::Poller, Exit::Finished), Directive::Nothing);
    assert_eq!(c.phase(), Phase::Idle);
}

#[test]
fn failing_outbound_pump_stops_the_others_and_closes_the_connection() {
    let mut c = running(10);
    assert_eq!(c.on_exit(Activity::OutboundPump, Exit::Failed), Directive::StopActivities);
    assert_eq!(c.phase(), Phase::ShuttingDown);
    assert_eq!(c.cause(), Some(Cause::Exited(Activity::OutboundPump, Exit::Failed)));
    assert!(!c.is_live(Activity::OutboundPump));
    assert!(c.is_live(Activity::InboundPump));
    assert!(c.is_live(Activity::Poller));
    assert!(c.is_live(Activity::Dispatcher));

    assert_eq!(c.offer_snapshot(titled("late")), Offer::Stopped(titled("late")));
    assert_eq!(c.next_frame(), Outbound::Stopped);
    assert_eq!(c.receive(&text("toggle")), Received::Stopped);
    assert_eq!(c.next_command(), Pending::Stopped);

    assert_eq!(c.on_exit(Activity::InboundPump, Exit::Cancelled), Directive::Nothing);
    assert_eq!(c.on_exit(Activity::Poller, Exit::Cancelled), Directive::Nothing);
    assert_eq!(c.phase(), Phase::ShuttingDown);
    assert_eq!(c.on_exit(Activity::Dispatcher, Exit::Cancelled), Directive::CloseTransport);
    assert_eq!(c.phase(), Phase::Closed);
    for who in ALL {
        assert!(!c.is_live(who));
    }
    assert_eq!(c.cause(), Some(Cause::Exited(Activity::OutboundPump, Exit::Failed)));
}

#[test]
fn any_first_exit_of_any_kind_leads_to_closed() {
    for first in ALL {
        for how in [Exit::Finished, Exit::Failed, Exit::Cancelled] {
            let mut c = running(10);
            assert_eq!(c.on_exit(first, how), Directive::StopActivities);
            assert_eq!(c.cause(), Some(Cause::Exited(first, how)));
            let rest: Vec<Activity> = ALL.iter().copied().filter(|a| *a != first).collect();
            for (n, who) in rest.iter().rev().enumerate() {
                let directive = c.on_exit(*who, how);
                if n + 1 == rest.len() {
                    assert_eq!(directive, Directive::CloseTransport);
                } else {
                    assert_eq!(directive, Directive::Nothing);
                    assert_eq!(c.phase(), Phase::ShuttingDown);
                }
            }
            assert_eq!(c.phase(), Phase::Closed);
        }
    }
}

#[test]
fn repeated_exit_reports_change_nothing() {
    let mut c = running(10);
    c.on_exit(Activity::InboundPump, Exit::Failed);
    assert_eq!(c.on_exit(Activity::InboundPump, Exit::Finished), Directive::Nothing);
    assert_eq!(c.cause(), Some(Cause::Exited(Activity::InboundPump, Exit::Failed)));
    assert_eq!(c.phase(), Phase::ShuttingDown);
    assert!(c.is_live(Activity::Poller));
}

#[test]
fn parent_cancellation_stops_all_four() {
    let mut c = running(10);
    assert_eq!(c.cancel(), Directive::StopActivities);
    assert_eq!(c.phase(), Phase::ShuttingDown);
    assert_eq!(c.cause(), Some(Cause::ParentCancelled));
    for who in ALL {
        assert!(c.is_live(who));
    }
    assert_eq!(c.cancel(), Directive::Nothing);
    assert_eq!(c.on_exit(Activity::Poller, Exit::Cancelled), Directive::Nothing);
    assert_eq!(c.on_exit(Activity::OutboundPump, Exit::Failed), Directive::Nothing);
    assert_eq!(c.on_exit(Activity::InboundPump, Exit::Finished), Directive::Nothing);
    assert_eq!(c.on_exit(Activity::Dispatcher, Exit::Cancelled), Directive::CloseTransport);
    assert_eq!(c.phase(), Phase::Closed);
    assert_eq!(c.cause(), Some(Cause::ParentCancelled));
}

#[test]
fn cancelling_an_idle_connection_closes_it() {
    let mut c = Connection::new(10);
    assert_eq!(c.cancel(), Directive::CloseTransport);
    assert_eq!(c.phase(), Phase::Closed);
    assert_eq!(c.cause(), Some(Cause::ParentCancelled));
    assert_eq!(c.start(), Directive::Nothing);
    assert_eq!(c.phase(), Phase::Closed);
}

#[test]
fn closed_connection_stays_closed() {
    let mut c = running(10);
    c.cancel();
    for who in ALL {
        c.on_exit(who, Exit::Cancelled);
    }
    assert_eq!(c.phase(), Phase::Closed);
    assert_eq!(c.start(), Directive::Nothing);
    assert_eq!(c.cancel(), Directive::Nothing);
    assert_eq!(c.on_exit(Activity::Poller, Exit::Failed), Directive::Nothing);
    assert_eq!(c.phase(), Phase::Closed);
}

#[test]
fn frames_leave_in_poll_order() {
    let mut c = running(10);
    let titles = ["one", "two", "three", "four", "five"];
    for t in titles {
        assert_eq!(c.offer_snapshot(titled(t)), Offer::Queued);
    }
    assert_eq!(c.queued(), 5);
    for t in titles {
        assert_eq!(c.next_frame(), Outbound::Frame(titled(t).to_json()));
    }
    assert_eq!(c.next_frame(), Outbound::Empty);
}

#[test]
fn equal_snapshots_are_not_coalesced() {
    let mut c = running(10);
    for _ in 0..3 {
        assert_eq!(c.offer_snapshot(MusicInfo::none()), Offer::Queued);
    }
    assert_eq!(c.queued(), 3);
    for _ in 0..3 {
        assert_eq!(c.next_frame(), Outbound::Frame(MusicInfo::none().to_json()));
    }
    assert_eq!(c.next_frame(), Outbound::Empty);
}

#[test]
fn full_queue_holds_the_poller_back_without_dropping() {
    let mut c = running(2);
    assert_eq!(c.offer_snapshot(titled("a")), Offer::Queued);
    assert_eq!(c.offer_snapshot(titled("b")), Offer::Queued);
    assert_eq!(c.offer_snapshot(titled("c")), Offer::Full(titled("c")));
    assert_eq!(c.queued(), 2);
    assert_eq!(c.next_frame(), Outbound::Frame(titled("a").to_json()));
    assert_eq!(c.offer_snapshot(titled("c")), Offer::Queued);
    assert_eq!(c.next_frame(), Outbound::Frame(titled("b").to_json()));
    assert_eq!(c.next_frame(), Outbound::Frame(titled("c").to_json()));
    assert_eq!(c.next_frame(), Outbound::Empty);
}

#[test]
fn only_the_latest_command_of_a_burst_is_handed_out() {
    let mut c = running(10);
    assert_eq!(c.receive(&text("skip")), Received::Published(Command::Skip));
    assert_eq!(c.receive(&text("back")), Received::Published(Command::Back));
    assert_eq!(c.receive(&text("pause")), Received::Ignored);
    assert_eq!(c.receive(&text("toggle")), Received::Published(Command::Toggle));
    assert_eq!(c.receive(&text("volume up")), Received::Ignored);
    assert!(c.has_pending_command());
    assert_eq!(c.next_command(), Pending::Command(Command::Toggle));
    assert!(!c.has_pending_command());
    assert_eq!(c.next_command(), Pending::Empty);
}

#[test]
fn same_command_sent_again_is_a_new_command() {
    let mut c = running(10);
    c.receive(&text("toggle"));
    assert_eq!(c.next_command(), Pending::Command(Command::Toggle));
    c.receive(&text("toggle"));
    assert_eq!(c.next_command(), Pending::Command(Command::Toggle));
    assert_eq!(c.next_command(), Pending::Empty);
}

#[test]
fn unrecognized_frames_leave_no_trace() {
    let mut c = running(10);
    c.offer_snapshot(titled("a"));
    for frame in [text("pause"), text(""), text("TOGGLE"), InboundFrame::Other] {
        assert_eq!(c.receive(&frame), Received::Ignored);
        assert_eq!(c.phase(), Phase::Running);
        assert!(!c.has_pending_command());
        assert_eq!(c.queued(), 1);
        for who in ALL {
            assert!(c.is_live(who));
        }
    }
    assert_eq!(c.next_command(), Pending::Empty);

    c.receive(&text("skip"));
    assert_eq!(c.receive(&text("pause")), Received::Ignored);
    assert_eq!(c.next_command(), Pending::Command(Command::Skip));
}

#[test]
fn poll_without_a_session_yields_the_empty_snapshot() {
    assert_eq!(poll_step(PollOutcome::NoSession), PollStep::Enqueue(MusicInfo::none()));
    assert_eq!(poll_step(PollOutcome::Fault), PollStep::Enqueue(MusicInfo::none()));
}

#[test]
fn poll_with_a_session_yields_its_snapshot() {
    let details = SessionDetails {
        title: String::from("t"),
        subtitle: String::from("s"),
        artist: String::from("a"),
        album_title: String::from("b"),
        start_time_ms: 1,
        end_time_ms: 3,
        position_ms: 2,
        status: PlaybackStatus::Paused,
        thumbnail: Some(vec![0x4d]),
    };
    let expected = MusicInfo {
        song_name: String::from("t"),
        song_subtitle: String::from("s"),
        artist: String::from("a"),
        album: String::from("b"),
        start_time_ms: 1,
        end_time_ms: 3,
        position_ms: 2,
        playing: false,
        album_artwork: String::from("TQ=="),
    };
    assert_eq!(poll_step(PollOutcome::Session(details)), PollStep::Enqueue(expected));
}

#[test]
fn fatal_poll_ends_the_poller() {
    assert_eq!(poll_step(PollOutcome::Fatal), PollStep::Fail);
}

#[test]
fn frames_stay_empty_while_no_session_exists() {
    let mut c = running(3);
    let empty = MusicInfo::none().to_json();
    for _ in 0..8 {
        match poll_step(PollOutcome::NoSession) {
            PollStep::Enqueue(snapshot) => assert_eq!(c.offer_snapshot(snapshot), Offer::Queued),
            PollStep::Fail => panic!("a poll without a session must not fail"),
        }
        assert_eq!(c.next_frame(), Outbound::Frame(empty.clone()));
    }
}
