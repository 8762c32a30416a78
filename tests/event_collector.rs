use chord_collector::event_collector::{
    Cluster, Collector, InputElement, Key, KeyState, KeyboardEvent, PendingClusterState,
};
use chord_collector::test_utilities::{i32_key_state_value_from_str, key_code_from_str, mipoch};
use chord_collector::Timestamp;

fn keyboard_event(device: &str, key: &str, state: &str, time: u64) -> KeyboardEvent {
    KeyboardEvent::new(
        Key::new(device, key_code_from_str(key).unwrap()),
        i32_key_state_value_from_str(state),
        mipoch(time),
    )
}

fn event_at_nanos(key: u16, state: i32, nanos: u128) -> KeyboardEvent {
    KeyboardEvent::new(Key::new("kb", key), state, Timestamp::from_nanos(nanos))
}

fn is_pending(collector: &Collector) -> bool {
    matches!(*collector.pending_cluster().state(), PendingClusterState::Pending)
}

fn is_formed(collector: &Collector) -> bool {
    matches!(*collector.pending_cluster().state(), PendingClusterState::Formed(..))
}

fn is_rejected(collector: &Collector) -> bool {
    matches!(*collector.pending_cluster().state(), PendingClusterState::Rejected(..))
}

#[test]
fn my_test() {
    let mut collector = Collector::new();

    collector.receive(&keyboard_event("L1", "D", "Down", 0));
    assert!(is_pending(&collector));

    collector.receive(&keyboard_event("L1", "F", "Down", 4));
    assert!(is_pending(&collector));

    collector.receive(&keyboard_event("R1", "J", "Down", 22));
    assert!(is_formed(&collector));
}

#[test]
fn two_presses_and_a_late_third_form_a_cluster() {
    let d = keyboard_event("L1", "D", "Down", 0);
    let f = keyboard_event("L1", "F", "Down", 4);
    let j = keyboard_event("R1", "J", "Down", 22);
    let mut collector = Collector::new();
    collector.receive(&d);
    collector.receive(&f);
    collector.receive(&j);

    assert_eq!(collector.pending_cluster().members().len(), 0);
    assert_eq!(
        collector.sequence().elements(),
        &[
            InputElement::Cluster(Cluster::new(vec![d.clone(), f.clone()])),
            InputElement::Key(j.clone()),
        ]
    );
    match collector.pending_cluster().state() {
        PendingClusterState::Formed(element) => {
            assert_eq!(*element, InputElement::Cluster(Cluster::new(vec![d, f])));
        }
        _ => panic!("expected a formed cluster"),
    }
}

#[test]
fn a_lone_press_is_rejected_as_a_standalone_key() {
    let d = keyboard_event("L1", "D", "Down", 0);
    let j = keyboard_event("R1", "J", "Down", 22);
    let mut collector = Collector::new();
    collector.receive(&d);
    collector.receive(&j);

    assert_eq!(collector.pending_cluster().members().len(), 0);
    assert_eq!(
        collector.sequence().elements(),
        &[InputElement::Key(d.clone()), InputElement::Key(j.clone())]
    );
    match collector.pending_cluster().state() {
        PendingClusterState::Rejected(elements) => {
            assert_eq!(elements, &vec![InputElement::Key(d)]);
        }
        _ => panic!("expected a rejected singleton"),
    }
}

#[test]
fn a_burst_inside_the_window_stays_pending() {
    let mut collector = Collector::new();
    let times = [0u64, 3, 7, 12, 19, 20];
    for (n, t) in times.iter().enumerate() {
        collector.receive(&keyboard_event("L1", "A", "Down", *t));
        assert_eq!(collector.pending_cluster().members().len(), n + 1);
        assert_eq!(collector.sequence().elements().len(), 0);
        assert!(is_pending(&collector));
    }
    let members = collector.pending_cluster().members();
    assert_eq!(members[0].timestamp(), mipoch(0));
    assert_eq!(members[5].timestamp(), mipoch(20));
}

#[test]
fn window_bound_is_inclusive_to_the_nanosecond() {
    let mut collector = Collector::new();
    collector.receive(&event_at_nanos(1, 1, 1_000));
    collector.receive(&event_at_nanos(2, 1, 1_000 + 20_000_000));
    assert_eq!(collector.pending_cluster().members().len(), 2);

    let mut collector = Collector::new();
    collector.receive(&event_at_nanos(1, 1, 1_000));
    collector.receive(&event_at_nanos(2, 1, 1_000 + 20_000_001));
    assert_eq!(collector.pending_cluster().members().len(), 0);
    assert_eq!(collector.sequence().elements().len(), 2);
    assert!(is_rejected(&collector));
}

#[test]
fn the_window_is_anchored_at_its_first_press() {
    let a = keyboard_event("L1", "A", "Down", 0);
    let s = keyboard_event("L1", "S", "Down", 15);
    let d = keyboard_event("L1", "D", "Down", 30);
    let mut collector = Collector::new();
    collector.receive(&a);
    collector.receive(&s);
    collector.receive(&d);
    assert_eq!(
        collector.sequence().elements(),
        &[
            InputElement::Cluster(Cluster::new(vec![a, s])),
            InputElement::Key(d),
        ]
    );
}

#[test]
fn the_closing_press_does_not_open_the_next_window() {
    let d = keyboard_event("L1", "D", "Down", 0);
    let j = keyboard_event("R1", "J", "Down", 22);
    let k = keyboard_event("R1", "K", "Down", 30);
    let l = keyboard_event("R1", "L", "Down", 60);
    let mut collector = Collector::new();
    collector.receive(&d);
    collector.receive(&j);
    collector.receive(&k);
    assert_eq!(collector.pending_cluster().members(), &[k.clone()]);
    assert!(is_pending(&collector));
    collector.receive(&l);
    assert_eq!(
        collector.sequence().elements(),
        &[
            InputElement::Key(d),
            InputElement::Key(j),
            InputElement::Key(k),
            InputElement::Key(l),
        ]
    );
}

#[test]
fn releases_and_holds_change_nothing() {
    let mut collector = Collector::new();
    collector.receive(&keyboard_event("L1", "D", "Down", 0));
    collector.receive(&keyboard_event("L1", "D", "Up", 50));
    collector.receive(&keyboard_event("L1", "D", "Hold", 100));
    collector.receive(&event_at_nanos(32, -1, 200_000_000));
    assert_eq!(collector.pending_cluster().members().len(), 1);
    assert_eq!(collector.sequence().elements().len(), 0);
    assert!(is_pending(&collector));

    collector.receive(&keyboard_event("L1", "F", "Down", 10));
    assert_eq!(collector.pending_cluster().members().len(), 2);
    collector.receive(&keyboard_event("R1", "J", "Down", 40));
    assert!(is_formed(&collector));
    assert_eq!(collector.sequence().elements().len(), 2);

    collector.receive(&keyboard_event("R1", "J", "Up", 41));
    assert!(is_formed(&collector));
    assert_eq!(collector.sequence().elements().len(), 2);
    assert_eq!(collector.pending_cluster().members().len(), 0);
}

#[test]
fn inspection_does_not_change_what_is_seen() {
    let mut collector = Collector::new();
    collector.receive(&keyboard_event("L1", "D", "Down", 0));
    collector.receive(&keyboard_event("R1", "J", "Down", 22));
    collector.receive(&keyboard_event("R1", "K", "Down", 25));
    let first_members = collector.pending_cluster().members().to_vec();
    let first_elements = collector.sequence().elements().to_vec();
    for _ in 0..3 {
        assert_eq!(collector.pending_cluster().members(), first_members.as_slice());
        assert_eq!(collector.sequence().elements(), first_elements.as_slice());
        assert!(is_pending(&collector));
    }
}

#[test]
fn a_fresh_collector_is_empty() {
    let collector = Collector::default();
    assert!(collector.pending_cluster().members().is_empty());
    assert!(collector.sequence().elements().is_empty());
    assert!(is_pending(&collector));
}

#[test]
fn key_state_codes_decode() {
    assert_eq!(KeyState::from_code(0), KeyState::Up);
    assert_eq!(KeyState::from_code(1), KeyState::Down);
    assert_eq!(KeyState::from_code(2), KeyState::Hold);
    assert_eq!(KeyState::from_code(-1), KeyState::Uninitiated);
}

#[test]
fn events_keep_what_they_were_built_from() {
    let event = keyboard_event("L1", "D", "Down", 7);
    assert_eq!(event.key(), &Key::new("L1", 32));
    assert_eq!(event.key().path(), "L1");
    assert_eq!(event.key().code(), 32);
    assert_eq!(event.state(), KeyState::Down);
    assert_eq!(event.timestamp(), mipoch(7));
    assert_eq!(event.clone(), event);
    let cluster = Cluster::new(vec![event.clone(), event.clone()]);
    assert_eq!(cluster.members().len(), 2);
    assert_eq!(cluster.clone(), cluster);
}

#[test]
fn timestamps_measure_windows_in_milliseconds() {
    let anchor = Timestamp::from_millis(100);
    assert!(Timestamp::from_millis(120).within_millis_of(&anchor, 20));
    assert!(!Timestamp::from_millis(121).within_millis_of(&anchor, 20));
    assert!(!Timestamp::from_nanos(120_000_001).within_millis_of(&anchor, 20));
    assert!(anchor.within_millis_of(&anchor, 0));
}
