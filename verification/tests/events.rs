//! The multi-reader event log: every reader registered before a batch of
//! appends observes exactly that batch, in append order, exactly once,
//! however its reads interleave with other readers'.

use ld49::events::EventLog;
use ld49::resource::{Key, KeyboardEvent};

#[test]
fn every_reader_sees_every_event_once_in_order() {
    let mut log: EventLog<KeyboardEvent> = EventLog::new();
    let r1 = log.register_reader();
    let r2 = log.register_reader();
    let r3 = log.register_reader();

    let batch = [
        KeyboardEvent::Pressed(Key::W),
        KeyboardEvent::Released(Key::W),
        KeyboardEvent::Pressed(Key::Return),
        KeyboardEvent::Pressed(Key::A),
        KeyboardEvent::Released(Key::A),
    ];
    for e in batch {
        log.append(e);
    }

    // The first reader drains everything at once.
    let seen1 = log.read(r1);
    assert_eq!(seen1, batch.to_vec());

    // The second reader is unaffected by the first one's read.
    let seen2 = log.read(r2);
    assert_eq!(seen2, batch.to_vec());

    // Reading again observes nothing twice.
    assert!(log.read(r1).is_empty());
    assert!(log.read(r2).is_empty());

    // A slow reader that drains in two steps still sees the whole batch
    // in order: its first read, some interleaved appends later, then the
    // rest.
    let first = log.read(r3);
    assert_eq!(first, batch.to_vec());
    log.append(KeyboardEvent::Pressed(Key::S));
    log.append(KeyboardEvent::Released(Key::S));
    let second = log.read(r3);
    assert_eq!(
        second,
        vec![KeyboardEvent::Pressed(Key::S), KeyboardEvent::Released(Key::S)]
    );
}

#[test]
fn late_reader_starts_at_registration() {
    let mut log: EventLog<KeyboardEvent> = EventLog::new();
    log.append(KeyboardEvent::Pressed(Key::W));
    let late = log.register_reader();
    // Events appended before registration are not replayed.
    assert!(log.read(late).is_empty());
    log.append(KeyboardEvent::Pressed(Key::D));
    assert_eq!(log.read(late), vec![KeyboardEvent::Pressed(Key::D)]);
}
