use jdw_suite::client::{
    nrt_finished_subscription, nrt_start, nrt_step, NrtAction, NrtEvent, NrtSession,
};
use jdw_suite::osc::encode;

#[test]
fn a_session_without_tracks_finishes_at_once() {
    let (s, a) = nrt_start(0);
    assert_eq!(s, NrtSession { track: 0, tracks: 0, port: 13456, retried: false });
    assert!(matches!(a, NrtAction::Finish(line) if line == "NRT recording finished. 0 track(s) processed."));
}

#[test]
fn the_first_listener_binds_the_first_port() {
    let (s, a) = nrt_start(2);
    assert_eq!(s, NrtSession { track: 0, tracks: 2, port: 13456, retried: false });
    assert!(matches!(a, NrtAction::StartListener(13456)));
}

#[test]
fn a_started_listener_is_subscribed_on_its_own_port() {
    let (s, _) = nrt_start(2);
    let (s, a) = nrt_step(s, NrtEvent::ListenerStarted);
    assert_eq!(s.port, 13457);
    assert!(!s.retried);
    match a {
        NrtAction::RecordTrack(packet) => {
            assert_eq!(packet, encode(&nrt_finished_subscription(13456)));
        }
        _ => panic!("expected the track to be recorded"),
    }
}

#[test]
fn a_busy_port_is_retried_once_on_the_next() {
    let (s, _) = nrt_start(1);
    let (s, a) = nrt_step(s, NrtEvent::ListenerFailed);
    assert!(matches!(a, NrtAction::StartListener(13457)));
    assert_eq!(s, NrtSession { track: 0, tracks: 1, port: 13457, retried: true });
    let (s2, a2) = nrt_step(s, NrtEvent::ListenerStarted);
    assert!(matches!(a2, NrtAction::RecordTrack(p) if p == encode(&nrt_finished_subscription(13457))));
    assert_eq!(s2.port, 13458);
    let (_, a3) = nrt_step(s, NrtEvent::ListenerFailed);
    assert!(matches!(a3, NrtAction::Exit));
}

#[test]
fn an_unsendable_recording_stops_the_session() {
    let (s, _) = nrt_start(3);
    let (s, _) = nrt_step(s, NrtEvent::ListenerStarted);
    let (s2, a) = nrt_step(s, NrtEvent::RecordingUnsendable);
    assert!(matches!(a, NrtAction::Stop));
    assert_eq!(s2, s);
}

#[test]
fn tracks_run_one_after_another_and_finish_with_the_count() {
    let (s, _) = nrt_start(2);
    let (s, _) = nrt_step(s, NrtEvent::ListenerStarted);
    let (s, a) = nrt_step(s, NrtEvent::TrackDone);
    assert_eq!(s, NrtSession { track: 1, tracks: 2, port: 13457, retried: false });
    assert!(matches!(a, NrtAction::StartListener(13457)));
    let (s, _) = nrt_step(s, NrtEvent::ListenerStarted);
    let (s, a) = nrt_step(s, NrtEvent::TrackDone);
    assert_eq!(s.track, 2);
    assert!(matches!(a, NrtAction::Finish(line) if line == "NRT recording finished. 2 track(s) processed."));
}
