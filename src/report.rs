use vstd::prelude::*;

use crate::keycode::KeyCode;
use crate::layout::MAX_CHORD_KEYS;

verus! {

/// Slot contents of a report that holds no key.
pub open spec fn release_slots() -> Seq<u8> {
    seq![0u8, 0u8, 0u8, 0u8, 0u8, 0u8]
}

/// Slot contents of a report that holds `keys`: their usage IDs in order,
/// then zeros.
pub open spec fn press_slots(keys: Seq<KeyCode>) -> Seq<u8> {
    Seq::new(
        MAX_CHORD_KEYS as nat,
        |i: int|
            if i < keys.len() {
                keys[i].usage()
            } else {
                0u8
            },
    )
}

/// A USB HID boot-keyboard input report.
#[derive(Clone, Copy, Debug, PartialEq, Eq)]
pub struct HidReport {
    /// Bit mask of the modifier keys.
    pub modifier: u8,
    /// Always 0.
    pub reserved: u8,
    /// LED state; not sent by the keyboard.
    pub leds: u8,
    /// Usage IDs of the pressed keys, 0 in a free slot.
    pub keycodes: [u8; 6],
}

impl HidReport {
    /// The report has no modifier bit and no LED bit, and its slots hold
    /// `slots`.
    pub open spec fn carries(self, slots: Seq<u8>) -> bool {
        &&& self.modifier == 0
        &&& self.reserved == 0
        &&& self.leds == 0
        &&& self.keycodes@ == slots
    }

    /// The report as it goes on the wire: modifier, reserved, then the six
    /// slots.
    pub open spec fn bytes(self) -> Seq<u8> {
        seq![self.modifier, self.reserved] + self.keycodes@
    }

    /// The report that releases every key.
    pub fn release() -> (r: HidReport)
        ensures
            r.carries(release_slots()),
    {
        let r = HidReport { modifier: 0, reserved: 0, leds: 0, keycodes: [0u8, 0u8, 0u8, 0u8, 0u8, 0u8] };
        assert(r.keycodes@ =~= release_slots());
        r
    }

    /// The report that holds `keys`, each in a slot of its own.
    pub fn press(keys: &Vec<KeyCode>) -> (r: HidReport)
        requires
            keys@.len() <= MAX_CHORD_KEYS,
        ensures
            r.carries(press_slots(keys@)),
    {
        let keycodes = [
            slot(keys, 0),
            slot(keys, 1),
            slot(keys, 2),
            slot(keys, 3),
            slot(keys, 4),
            slot(keys, 5),
        ];
        assert(keycodes@ =~= press_slots(keys@));
        HidReport { modifier: 0, reserved: 0, leds: 0, keycodes }
    }

    /// The eight bytes of the report on the wire.
    pub fn to_bytes(&self) -> (r: [u8; 8])
        ensures
            r@ == self.bytes(),
    {
        let r = [
            self.modifier,
            self.reserved,
            self.keycodes[0],
            self.keycodes[1],
            self.keycodes[2],
            self.keycodes[3],
            self.keycodes[4],
            self.keycodes[5],
        ];
        assert(r@ =~= self.bytes());
        r
    }
}

/// Slot `i` of the report that holds `keys`.
fn slot(keys: &Vec<KeyCode>, i: usize) -> (r: u8)
    requires
        i < MAX_CHORD_KEYS,
    ensures
        r == press_slots(keys@)[i as int],
{
    if i < keys.len() {
        keys[i].usage_id()
    } else {
        0
    }
}

} // verus!
