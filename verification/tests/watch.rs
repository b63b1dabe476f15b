use npd::notify::{Notification, REPLACES_ID, TIMEOUT_MS};
use npd::watch::{detect_change, ATTEMPT_CAP, RETRY_DELAY_MS};
use npd::{Action, Args, Error, Event, Phase, WatchLoop};

fn song(name: &str) -> Option<String> {
    Some(name.to_string())
}

/// Takes the loop from `Idle` to `Comparing`.
fn bring_to_comparing(watch: &mut WatchLoop) {
    assert_eq!(watch.step(Event::Registered), Action::Await);
    assert_eq!(watch.step(Event::Woken { created: true }), Action::Probe { delay_ms: 0 });
    assert_eq!(watch.step(Event::Probed { exists: true }), Action::Read);
    assert_eq!(watch.phase(), Phase::Comparing);
}

#[test]
fn changes_are_detected() {
    let observed = [None, song("a"), song("a"), song("b"), song("b"), song("a")];
    let mut previous: Option<String> = None;
    let mut fired = Vec::new();
    for current in observed {
        if detect_change(&previous, &current) {
            fired.push((previous.clone(), current.clone()));
        }
        previous = current;
    }
    assert_eq!(
        fired,
        vec![(None, song("a")), (song("a"), song("b")), (song("b"), song("a"))]
    );
}

#[test]
fn absence_is_never_news() {
    assert!(!detect_change(&None, &None));
    assert!(!detect_change(&song("a"), &None));
    assert!(detect_change(&None, &song("a")));
    assert!(detect_change(&None, &song("")));
    assert!(!detect_change(&song("a"), &song("a")));
    assert!(detect_change(&song("a"), &song("A")));
}

#[test]
fn loop_notifies_once_per_change() {
    let observed = [None, song("a"), song("a"), song("b"), song("b"), song("a")];
    let mut watch = WatchLoop::new("/state".to_string());
    assert_eq!(watch.step(Event::Started), Action::Register);
    let mut summaries = Vec::new();
    for current in observed {
        bring_to_comparing(&mut watch);
        match watch.step(Event::Observed { current: current.clone() }) {
            Action::Notify(notification) => {
                summaries.push(notification.summary);
                assert_eq!(watch.phase(), Phase::Comparing);
                assert_eq!(watch.step(Event::Delivered), Action::Register);
            },
            action => assert_eq!(action, Action::Register),
        }
        assert_eq!(watch.phase(), Phase::Idle);
        assert_eq!(watch.previous(), &current);
    }
    assert_eq!(summaries, vec!["a", "b", "a"]);
}

#[test]
fn new_loop_is_idle() {
    let watch = WatchLoop::new("/var/lib/mpd/state".to_string());
    assert_eq!(watch.phase(), Phase::Idle);
    assert_eq!(watch.previous(), &None);
    assert_eq!(watch.state_file(), "/var/lib/mpd/state");
}

#[test]
fn watch_is_armed_anew_after_an_empty_wait() {
    let mut watch = WatchLoop::new("/state".to_string());
    assert_eq!(watch.step(Event::Registered), Action::Await);
    assert_eq!(watch.phase(), Phase::Armed);
    assert_eq!(watch.step(Event::Woken { created: false }), Action::Register);
    assert_eq!(watch.phase(), Phase::Idle);
}

#[test]
fn missing_file_is_looked_for_again() {
    let mut watch = WatchLoop::new("/state".to_string());
    assert_eq!(watch.step(Event::Registered), Action::Await);
    assert_eq!(watch.step(Event::Woken { created: true }), Action::Probe { delay_ms: 0 });
    assert_eq!(watch.phase(), Phase::Materializing { attempts: 0 });
    assert_eq!(watch.step(Event::Probed { exists: false }), Action::Probe { delay_ms: 1 });
    assert_eq!(watch.phase(), Phase::Materializing { attempts: 1 });
    assert_eq!(watch.step(Event::Probed { exists: false }), Action::Probe { delay_ms: RETRY_DELAY_MS });
    assert_eq!(watch.phase(), Phase::Materializing { attempts: 2 });
    assert_eq!(watch.step(Event::Probed { exists: true }), Action::Read);
    assert_eq!(watch.phase(), Phase::Comparing);
}

#[test]
fn materialization_fails_after_exactly_the_cap() {
    assert_eq!(ATTEMPT_CAP, 500);
    let mut watch = WatchLoop::new("/var/lib/mpd/state".to_string());
    assert_eq!(watch.step(Event::Registered), Action::Await);
    assert_eq!(watch.step(Event::Woken { created: true }), Action::Probe { delay_ms: 0 });
    for miss in 1..500 {
        assert_eq!(
            watch.step(Event::Probed { exists: false }),
            Action::Probe { delay_ms: 1 },
            "miss {}",
            miss
        );
    }
    let failure = Error::StateFileAbsent { path: "/var/lib/mpd/state".to_string() };
    assert_eq!(watch.step(Event::Probed { exists: false }), Action::Fail(failure));
    assert_eq!(
        Error::StateFileAbsent { path: "/var/lib/mpd/state".to_string() }.message(),
        "failed to find MPD state file at `/var/lib/mpd/state`"
    );
}

#[test]
fn file_may_appear_at_the_last_attempt() {
    let mut watch = WatchLoop::new("/state".to_string());
    assert_eq!(watch.step(Event::Registered), Action::Await);
    assert_eq!(watch.step(Event::Woken { created: true }), Action::Probe { delay_ms: 0 });
    for _ in 1..500 {
        assert_eq!(watch.step(Event::Probed { exists: false }), Action::Probe { delay_ms: 1 });
    }
    assert_eq!(watch.phase(), Phase::Materializing { attempts: 499 });
    assert_eq!(watch.step(Event::Probed { exists: true }), Action::Read);
}

#[test]
fn attempts_start_over_with_every_event() {
    let mut watch = WatchLoop::new("/state".to_string());
    for _ in 0..3 {
        assert_eq!(watch.step(Event::Registered), Action::Await);
        assert_eq!(watch.step(Event::Woken { created: true }), Action::Probe { delay_ms: 0 });
        for _ in 0..400 {
            assert_eq!(watch.step(Event::Probed { exists: false }), Action::Probe { delay_ms: 1 });
        }
        assert_eq!(watch.step(Event::Probed { exists: true }), Action::Read);
        assert_eq!(watch.step(Event::Observed { current: None }), Action::Register);
    }
}

#[test]
fn events_out_of_turn_make_the_loop_give_up() {
    let mut watch = WatchLoop::new("/state".to_string());
    assert_eq!(watch.step(Event::Probed { exists: true }), Action::Fail(Error::UnexpectedEvent));
    assert_eq!(watch.step(Event::Delivered), Action::Fail(Error::UnexpectedEvent));
    assert_eq!(watch.phase(), Phase::Idle);
    assert_eq!(watch.step(Event::Registered), Action::Await);
    assert_eq!(watch.step(Event::Registered), Action::Fail(Error::UnexpectedEvent));
    assert_eq!(watch.step(Event::Started), Action::Fail(Error::UnexpectedEvent));
    assert_eq!(watch.step(Event::Observed { current: song("a") }), Action::Fail(Error::UnexpectedEvent));
    assert_eq!(watch.phase(), Phase::Armed);
    assert_eq!(watch.previous(), &None);
    assert_eq!(
        Error::UnexpectedEvent.message(),
        "the watch loop received an event out of turn"
    );
}

#[test]
fn notification_carries_the_song_as_summary() {
    let mut watch = WatchLoop::new("/state".to_string());
    bring_to_comparing(&mut watch);
    let expected = Notification {
        app_name: "npd".to_string(),
        replaces_id: 1,
        icon: String::new(),
        summary: "by-artist/various/adele_-_hello.opus".to_string(),
        body: String::new(),
        actions: Vec::new(),
        timeout_ms: 5000,
    };
    assert_eq!(
        watch.step(Event::Observed { current: song("by-artist/various/adele_-_hello.opus") }),
        Action::Notify(expected)
    );
}

#[test]
fn announcement_has_fixed_fields() {
    let notification = Notification::announce("song".to_string());
    assert_eq!(notification.app_name, "npd");
    assert_eq!(notification.replaces_id, REPLACES_ID);
    assert_eq!(notification.icon, "");
    assert_eq!(notification.summary, "song");
    assert_eq!(notification.body, "");
    assert!(notification.actions.is_empty());
    assert_eq!(notification.timeout_ms, TIMEOUT_MS);
    assert_eq!(REPLACES_ID, 1);
    assert_eq!(TIMEOUT_MS, 5000);
}

#[test]
fn args_hold_nothing() {
    assert_eq!(Args {}, Args {});
}
