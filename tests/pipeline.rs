use minikey::keyboard::Keyboard;
use minikey::keycode::KeyCode;
use minikey::keypad::{macro_matrix, tmux_lead, tmux_next_macro, tmux_prev_macro};
use minikey::layout::{Binding, Chord, ConfigError, KeyPosition, Macro, MacroTable, MAX_CHORD_KEYS};
use minikey::matrix::{scan_plan, ScanAction, Snapshot, COLS, COLUMN_SETTLE_US, ROWS};
use minikey::report::HidReport;
use minikey::sequencer::{paced, reports_for, ReportStep, POLL_INTERVAL_MS};
use minikey::tracker::{classify, Edge, KeyTracker, Transition};

fn pos(col: usize, row: usize) -> KeyPosition {
    KeyPosition { col, row }
}

fn snapshot_with(pressed: &[(usize, usize)]) -> Snapshot {
    let mut s = Snapshot::new(COLS, ROWS);
    for &(c, r) in pressed {
        s.set(pos(c, r), true);
    }
    s
}

fn report(slots: [u8; 6]) -> HidReport {
    HidReport { modifier: 0, reserved: 0, leds: 0, keycodes: slots }
}

const RELEASE: [u8; 6] = [0, 0, 0, 0, 0, 0];

fn chord(keys: &[KeyCode]) -> Chord {
    Chord::new(keys.to_vec()).unwrap()
}

#[test]
fn usage_ids_follow_the_hid_table() {
    assert_eq!(KeyCode::A.usage_id(), 0x04);
    assert_eq!(KeyCode::B.usage_id(), 0x05);
    assert_eq!(KeyCode::N.usage_id(), 0x11);
    assert_eq!(KeyCode::P.usage_id(), 0x13);
    assert_eq!(KeyCode::Z.usage_id(), 0x1D);
    assert_eq!(KeyCode::N1.usage_id(), 0x1E);
    assert_eq!(KeyCode::N0.usage_id(), 0x27);
    assert_eq!(KeyCode::ENTER.usage_id(), 0x28);
    assert_eq!(KeyCode::LEFTCTRL.usage_id(), 0xE0);
    assert_eq!(KeyCode::RIGHTGUI.usage_id(), 0xE7);
}

#[test]
fn unbound_key_press_and_release_emit_nothing() {
    let mut kb = Keyboard::new(macro_matrix());
    assert!(kb.step(snapshot_with(&[(3, 3)])).is_empty());
    assert!(kb.step(snapshot_with(&[])).is_empty());
    assert!(kb.step(snapshot_with(&[(2, 1)])).is_empty());
}

#[test]
fn single_key_press_emits_press_then_release() {
    let mut table = MacroTable::new(COLS, ROWS);
    assert_eq!(table.bind(pos(1, 2), Binding::SingleKey(KeyCode::A)), Ok(()));
    let mut kb = Keyboard::new(table);
    let out = kb.step(snapshot_with(&[(1, 2)]));
    assert_eq!(out, vec![report([0x04, 0, 0, 0, 0, 0]), report(RELEASE)]);
    assert!(kb.step(snapshot_with(&[])).is_empty());
}

#[test]
fn three_chord_macro_plays_six_reports_in_order() {
    let m = Macro::new(vec![
        chord(&[KeyCode::LEFTSHIFT, KeyCode::A]),
        chord(&[KeyCode::B]),
        chord(&[KeyCode::LEFTCTRL, KeyCode::LEFTALT, KeyCode::C]),
    ])
    .unwrap();
    let out = reports_for(&Binding::ChordSequence(m));
    assert_eq!(
        out,
        vec![
            report([0xE1, 0x04, 0, 0, 0, 0]),
            report(RELEASE),
            report([0x05, 0, 0, 0, 0, 0]),
            report(RELEASE),
            report([0xE0, 0xE2, 0x06, 0, 0, 0]),
            report(RELEASE),
        ]
    );
}

#[test]
fn full_chord_fills_every_slot() {
    let keys = [KeyCode::A, KeyCode::B, KeyCode::C, KeyCode::D, KeyCode::E, KeyCode::F];
    let m = Macro::new(vec![chord(&keys)]).unwrap();
    let out = reports_for(&Binding::ChordSequence(m));
    assert_eq!(out, vec![report([4, 5, 6, 7, 8, 9]), report(RELEASE)]);
}

#[test]
fn unbound_binding_has_no_reports() {
    assert!(reports_for(&Binding::Unbound).is_empty());
}

#[test]
fn held_keys_emit_nothing_more() {
    let mut kb = Keyboard::new(macro_matrix());
    assert_eq!(kb.step(snapshot_with(&[(0, 0)])).len(), 4);
    for _ in 0..5 {
        assert!(kb.step(snapshot_with(&[(0, 0)])).is_empty());
    }
    assert!(kb.step(snapshot_with(&[])).is_empty());
    for _ in 0..5 {
        assert!(kb.step(snapshot_with(&[])).is_empty());
    }
}

#[test]
fn single_switch_round_trip_gives_one_press_and_one_release() {
    for c in 0..COLS {
        for r in 0..ROWS {
            let mut tracker = KeyTracker::new(COLS, ROWS);
            let mut held = Snapshot::new(COLS, ROWS);
            let mut column = vec![false; ROWS];
            column[r] = true;
            held.record_column(c, &column);
            assert_eq!(
                tracker.advance(held),
                vec![Edge { pos: pos(c, r), transition: Transition::Pressed }]
            );
            assert_eq!(
                tracker.advance(Snapshot::new(COLS, ROWS)),
                vec![Edge { pos: pos(c, r), transition: Transition::Released }]
            );
            assert!(tracker.advance(Snapshot::new(COLS, ROWS)).is_empty());
        }
    }
}

#[test]
fn edges_come_in_column_major_order() {
    let mut tracker = KeyTracker::new(COLS, ROWS);
    tracker.advance(snapshot_with(&[(2, 0)]));
    let edges = tracker.advance(snapshot_with(&[(1, 3), (0, 2)]));
    assert_eq!(
        edges,
        vec![
            Edge { pos: pos(0, 2), transition: Transition::Pressed },
            Edge { pos: pos(1, 3), transition: Transition::Pressed },
            Edge { pos: pos(2, 0), transition: Transition::Released },
        ]
    );
}

#[test]
fn held_tmux_prev_key_plays_its_macro_once() {
    let mut kb = Keyboard::new(macro_matrix());
    let out = kb.step(snapshot_with(&[(0, 0)]));
    assert_eq!(
        out,
        vec![
            report([0xE0, 0x05, 0, 0, 0, 0]),
            report(RELEASE),
            report([0x13, 0, 0, 0, 0, 0]),
            report(RELEASE),
        ]
    );
    assert!(kb.step(snapshot_with(&[(0, 0)])).is_empty());
    assert!(kb.step(snapshot_with(&[(0, 0)])).is_empty());
}

#[test]
fn quick_tap_of_tmux_next_key_plays_on_press_only() {
    let mut kb = Keyboard::new(macro_matrix());
    let out = kb.step(snapshot_with(&[(0, 1)]));
    assert_eq!(
        out,
        vec![
            report([0xE0, 0x05, 0, 0, 0, 0]),
            report(RELEASE),
            report([0x11, 0, 0, 0, 0, 0]),
            report(RELEASE),
        ]
    );
    assert!(kb.step(snapshot_with(&[])).is_empty());
}

#[test]
fn seven_key_chord_is_refused() {
    let keys = vec![
        KeyCode::A,
        KeyCode::B,
        KeyCode::C,
        KeyCode::D,
        KeyCode::E,
        KeyCode::F,
        KeyCode::G,
    ];
    assert!(matches!(Chord::new(keys), Err(ConfigError::ChordTooLarge)));
}

#[test]
fn chord_sizes_at_the_edges() {
    assert_eq!(MAX_CHORD_KEYS, 6);
    assert!(matches!(Chord::new(vec![]), Err(ConfigError::EmptyChord)));
    let one = Chord::new(vec![KeyCode::Q]).unwrap();
    assert_eq!(one.keys(), &vec![KeyCode::Q]);
    let six = vec![KeyCode::A, KeyCode::S, KeyCode::D, KeyCode::F, KeyCode::G, KeyCode::H];
    assert_eq!(Chord::new(six.clone()).unwrap().keys(), &six);
}

#[test]
fn chord_with_a_repeated_key_is_refused() {
    assert!(matches!(Chord::new(vec![KeyCode::A, KeyCode::A]), Err(ConfigError::RepeatedKey)));
    assert!(matches!(
        Chord::new(vec![KeyCode::LEFTCTRL, KeyCode::B, KeyCode::LEFTCTRL]),
        Err(ConfigError::RepeatedKey)
    ));
    assert!(matches!(Chord::new(vec![KeyCode::A; 7]), Err(ConfigError::ChordTooLarge)));
}

#[test]
fn reports_are_paced_by_the_polling_interval() {
    assert!(paced(&vec![]).is_empty());
    let reports = reports_for(&Binding::SingleKey(KeyCode::N));
    assert_eq!(
        paced(&reports),
        vec![
            ReportStep::Send(report([0x11, 0, 0, 0, 0, 0])),
            ReportStep::Wait(10),
            ReportStep::Send(report(RELEASE)),
            ReportStep::Wait(10),
        ]
    );
}

#[test]
fn empty_macro_is_refused() {
    assert!(matches!(Macro::new(vec![]), Err(ConfigError::EmptyMacro)));
}

#[test]
fn binding_errors() {
    let mut table = MacroTable::new(2, 3);
    assert_eq!(table.bind(pos(2, 0), Binding::SingleKey(KeyCode::A)), Err(ConfigError::PositionOutOfRange));
    assert_eq!(table.bind(pos(0, 3), Binding::SingleKey(KeyCode::A)), Err(ConfigError::PositionOutOfRange));
    assert_eq!(table.bind(pos(1, 2), Binding::SingleKey(KeyCode::A)), Ok(()));
    assert_eq!(table.bind(pos(1, 2), Binding::SingleKey(KeyCode::B)), Err(ConfigError::AlreadyBound));
    assert!(matches!(table.lookup(pos(1, 2)), Binding::SingleKey(KeyCode::A)));
    assert!(matches!(table.lookup(pos(0, 0)), Binding::Unbound));
}

#[test]
fn reference_table_bindings() {
    let table = macro_matrix();
    assert_eq!((table.cols, table.rows), (4, 4));
    assert_eq!(reports_for(table.lookup(pos(0, 0))), reports_for(&Binding::ChordSequence(tmux_prev_macro())));
    assert_eq!(table.reports_at(pos(0, 1)), reports_for(&Binding::ChordSequence(tmux_next_macro())));
    assert_eq!(tmux_lead().keys(), &vec![KeyCode::LEFTCTRL, KeyCode::B]);
    for c in 0..COLS {
        for r in 0..ROWS {
            if c != 0 || r > 1 {
                assert!(matches!(table.lookup(pos(c, r)), Binding::Unbound));
            }
        }
    }
}

#[test]
fn report_wire_bytes() {
    let r = HidReport { modifier: 0x02, reserved: 0, leds: 0x1F, keycodes: [0x04, 0x05, 0, 0, 0, 0x27] };
    assert_eq!(r.to_bytes(), [0x02, 0, 0x04, 0x05, 0, 0, 0, 0x27]);
    assert_eq!(HidReport::release().to_bytes(), [0; 8]);
    assert_eq!(HidReport::press(&vec![KeyCode::LEFTCTRL, KeyCode::B]).to_bytes(), [0, 0, 0xE0, 0x05, 0, 0, 0, 0]);
}

#[test]
fn transitions() {
    assert_eq!(classify(false, true), Transition::Pressed);
    assert_eq!(classify(true, false), Transition::Released);
    assert_eq!(classify(true, true), Transition::NoChange);
    assert_eq!(classify(false, false), Transition::NoChange);
}

#[test]
fn scan_plan_drives_one_column_at_a_time() {
    assert_eq!(COLUMN_SETTLE_US, 10);
    assert_eq!(POLL_INTERVAL_MS, 10);
    assert!(scan_plan(0).is_empty());
    let s = ScanAction::Settle(10);
    assert_eq!(
        scan_plan(2),
        vec![
            ScanAction::DriveHigh(0),
            s,
            ScanAction::SampleRows(0),
            ScanAction::DriveLow(0),
            s,
            ScanAction::DriveHigh(1),
            s,
            ScanAction::SampleRows(1),
            ScanAction::DriveLow(1),
            s,
        ]
    );
}

#[test]
fn snapshot_columns_are_recorded_by_row() {
    let mut s = Snapshot::new(3, 2);
    s.record_column(1, &vec![true, false]);
    s.record_column(2, &vec![false, true]);
    assert!(s.get(pos(1, 0)));
    assert!(!s.get(pos(1, 1)));
    assert!(s.get(pos(2, 1)));
    assert!(!s.get(pos(0, 0)));
    s.set(pos(1, 0), false);
    assert!(!s.get(pos(1, 0)));
}
