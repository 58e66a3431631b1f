use vstd::prelude::*;

use crate::keycode::KeyCode;
use crate::layout::{Binding, Chord, KeyPosition, Macro, MacroTable};
use crate::matrix::{COLS, ROWS};

verus! {

/// The tmux prefix: Ctrl+B.
pub fn tmux_lead() -> (r: Chord)
    ensures
        r@ == seq![KeyCode::LEFTCTRL, KeyCode::B],
{
    let keys = vec![KeyCode::LEFTCTRL, KeyCode::B];
    assert(keys@ =~= seq![KeyCode::LEFTCTRL, KeyCode::B]);
    Chord::new(keys).unwrap()
}

/// tmux's next-window key.
pub fn tmux_next() -> (r: Chord)
    ensures
        r@ == seq![KeyCode::N],
{
    let keys = vec![KeyCode::N];
    assert(keys@ =~= seq![KeyCode::N]);
    Chord::new(keys).unwrap()
}

/// tmux's previous-window key.
pub fn tmux_prev() -> (r: Chord)
    ensures
        r@ == seq![KeyCode::P],
{
    let keys = vec![KeyCode::P];
    assert(keys@ =~= seq![KeyCode::P]);
    Chord::new(keys).unwrap()
}

/// Switches tmux to the next window.
pub fn tmux_next_macro() -> (r: Macro)
    ensures
        r@ == seq![seq![KeyCode::LEFTCTRL, KeyCode::B], seq![KeyCode::N]],
{
    let chords = vec![tmux_lead(), tmux_next()];
    let r = Macro::new(chords).unwrap();
    assert(r@ =~= seq![seq![KeyCode::LEFTCTRL, KeyCode::B], seq![KeyCode::N]]);
    r
}

/// Switches tmux to the previous window.
pub fn tmux_prev_macro() -> (r: Macro)
    ensures
        r@ == seq![seq![KeyCode::LEFTCTRL, KeyCode::B], seq![KeyCode::P]],
{
    let chords = vec![tmux_lead(), tmux_prev()];
    let r = Macro::new(chords).unwrap();
    assert(r@ =~= seq![seq![KeyCode::LEFTCTRL, KeyCode::B], seq![KeyCode::P]]);
    r
}

/// The keypad's bindings: column 0, row 0 goes to the previous tmux
/// window, column 0, row 1 to the next one; no other key is bound.
pub fn macro_matrix() -> (r: MacroTable)
    ensures
        r.wf(),
        r.cols == COLS,
        r.rows == ROWS,
        r.binding(KeyPosition { col: 0, row: 0 }) matches Binding::ChordSequence(m) && m@ == seq![
            seq![KeyCode::LEFTCTRL, KeyCode::B],
            seq![KeyCode::P],
        ],
        r.binding(KeyPosition { col: 0, row: 1 }) matches Binding::ChordSequence(m) && m@ == seq![
            seq![KeyCode::LEFTCTRL, KeyCode::B],
            seq![KeyCode::N],
        ],
        forall|p: KeyPosition|
            r.contains(p) && p != (KeyPosition { col: 0, row: 0 }) && p != (KeyPosition {
                col: 0,
                row: 1,
            }) ==> #[trigger] r.binding(p) is Unbound,
{
    let mut table = MacroTable::new(COLS, ROWS);
    let _ = table.bind(KeyPosition { col: 0, row: 0 }, Binding::ChordSequence(tmux_prev_macro()));
    let _ = table.bind(KeyPosition { col: 0, row: 1 }, Binding::ChordSequence(tmux_next_macro()));
    table
}

} // verus!
