use vstd::prelude::*;

use crate::keycode::KeyCode;

verus! {

/// A keyboard report has room for this many simultaneously pressed keys.
pub const MAX_CHORD_KEYS: usize = 6;

/// A physical switch, named by its column and row in the matrix.
#[derive(Clone, Copy, Debug, PartialEq, Eq, Structural)]
pub struct KeyPosition {
    pub col: usize,
    pub row: usize,
}

/// Why a binding could not be declared.
#[derive(Clone, Copy, Debug, PartialEq, Eq, Structural)]
pub enum ConfigError {
    /// A chord with no key in it.
    EmptyChord,
    /// A chord with more keys than a report has slots.
    ChordTooLarge,
    /// A chord that names the same key twice.
    RepeatedKey,
    /// A macro with no chord in it.
    EmptyMacro,
    /// A position outside the matrix.
    PositionOutOfRange,
    /// A position that already has a binding.
    AlreadyBound,
}

/// Keys to be reported as held at the same time: between one and
/// `MAX_CHORD_KEYS` of them, each named once.
#[derive(Debug)]
pub struct Chord {
    keys: Vec<KeyCode>,
}

impl View for Chord {
    type V = Seq<KeyCode>;

    closed spec fn view(&self) -> Seq<KeyCode> {
        self.keys@
    }
}

impl Chord {
    #[verifier::type_invariant]
    spec fn fits(self) -> bool {
        &&& 1 <= self.keys@.len() <= MAX_CHORD_KEYS
        &&& self.keys@.no_duplicates()
    }

    /// Declares a chord. One that is empty, that would not fit in a report,
    /// or that names a key twice is refused, never cut short or merged.
    pub fn new(keys: Vec<KeyCode>) -> (r: Result<Chord, ConfigError>)
        ensures
            keys@.len() == 0 ==> r == Err::<Chord, ConfigError>(ConfigError::EmptyChord),
            keys@.len() > MAX_CHORD_KEYS ==> r == Err::<Chord, ConfigError>(
                ConfigError::ChordTooLarge,
            ),
            1 <= keys@.len() <= MAX_CHORD_KEYS && !keys@.no_duplicates() ==> r == Err::<
                Chord,
                ConfigError,
            >(ConfigError::RepeatedKey),
            1 <= keys@.len() <= MAX_CHORD_KEYS && keys@.no_duplicates() ==> r is Ok && r->Ok_0@
                == keys@,
    {
        if keys.len() == 0 {
            Err(ConfigError::EmptyChord)
        } else if keys.len() > MAX_CHORD_KEYS {
            Err(ConfigError::ChordTooLarge)
        } else if has_repeat(&keys) {
            Err(ConfigError::RepeatedKey)
        } else {
            Ok(Chord { keys })
        }
    }

    /// The keys of the chord, in the order they were declared.
    pub fn keys(&self) -> (r: &Vec<KeyCode>)
        ensures
            r@ == self@,
            1 <= r@.len() <= MAX_CHORD_KEYS,
            r@.no_duplicates(),
    {
        proof {
            use_type_invariant(self);
        }
        &self.keys
    }
}

/// Whether some key occurs twice in `keys`.
fn has_repeat(keys: &Vec<KeyCode>) -> (r: bool)
    ensures
        r == !keys@.no_duplicates(),
{
    let mut i: usize = 0;
    while i < keys.len()
        invariant
            i <= keys@.len(),
            forall|a: int, b: int| 0 <= a < i && 0 <= b < keys@.len() && a != b ==> keys@[a] != keys@[b],
        decreases keys@.len() - i,
    {
        let mut j: usize = 0;
        while j < keys.len()
            invariant
                i < keys@.len(),
                j <= keys@.len(),
                forall|a: int, b: int| 0 <= a < i && 0 <= b < keys@.len() && a != b ==> keys@[a] != keys@[b],
                forall|b: int| 0 <= b < j && b != i ==> keys@[i as int] != keys@[b],
            decreases keys@.len() - j,
        {
            if j != i && keys[i] == keys[j] {
                return true;
            }
            j = j + 1;
        }
        i = i + 1;
    }
    false
}

/// Chords played one after the other, in order: at least one of them.
#[derive(Debug)]
pub struct Macro {
    chords: Vec<Chord>,
}

impl View for Macro {
    type V = Seq<Seq<KeyCode>>;

    closed spec fn view(&self) -> Seq<Seq<KeyCode>> {
        self.chords@.map_values(|c: Chord| c@)
    }
}

impl Macro {
    #[verifier::type_invariant]
    spec fn well_formed(self) -> bool {
        &&& self.chords@.len() >= 1
        &&& forall|i: int|
            0 <= i < self.chords@.len() ==> 1 <= #[trigger] self.chords@[i]@.len()
                <= MAX_CHORD_KEYS && self.chords@[i]@.no_duplicates()
    }

    /// Declares a macro from its chords in playing order; an empty one is
    /// refused.
    pub fn new(chords: Vec<Chord>) -> (r: Result<Macro, ConfigError>)
        ensures
            chords@.len() == 0 ==> r == Err::<Macro, ConfigError>(ConfigError::EmptyMacro),
            chords@.len() > 0 ==> r is Ok && r->Ok_0@ == chords@.map_values(|c: Chord| c@),
    {
        if chords.len() == 0 {
            return Err(ConfigError::EmptyMacro);
        }
        let mut i: usize = 0;
        while i < chords.len()
            invariant
                i <= chords@.len(),
                forall|j: int|
                    0 <= j < i ==> 1 <= #[trigger] chords@[j]@.len() <= MAX_CHORD_KEYS
                        && chords@[j]@.no_duplicates(),
            decreases chords@.len() - i,
        {
            let chord: &Chord = &chords[i];
            proof {
                use_type_invariant(chord);
            }
            i = i + 1;
        }
        Ok(Macro { chords })
    }

    /// The chords of the macro, in playing order.
    pub fn chords(&self) -> (r: &Vec<Chord>)
        ensures
            r@.map_values(|c: Chord| c@) == self@,
            r@.len() >= 1,
            forall|i: int|
                0 <= i < r@.len() ==> 1 <= #[trigger] r@[i]@.len() <= MAX_CHORD_KEYS
                    && r@[i]@.no_duplicates(),
    {
        proof {
            use_type_invariant(self);
        }
        &self.chords
    }
}

/// What a key position does when it is pressed.
#[derive(Debug)]
pub enum Binding {
    /// Nothing.
    Unbound,
    /// Taps one key.
    SingleKey(KeyCode),
    /// Taps each chord of a macro in turn.
    ChordSequence(Macro),
}

/// The binding of every position of a `cols` by `rows` matrix, indexed
/// `cells[col][row]`. Built once at startup.
#[derive(Debug)]
pub struct MacroTable {
    pub cols: usize,
    pub rows: usize,
    pub cells: Vec<Vec<Binding>>,
}

impl MacroTable {
    /// One cell per position of the matrix.
    pub open spec fn wf(&self) -> bool {
        &&& self.cells@.len() == self.cols
        &&& forall|c: int| 0 <= c < self.cols ==> (#[trigger] self.cells@[c])@.len() == self.rows
    }

    pub open spec fn contains(&self, pos: KeyPosition) -> bool {
        pos.col < self.cols && pos.row < self.rows
    }

    /// The binding of a position.
    pub open spec fn binding(&self, pos: KeyPosition) -> Binding {
        self.cells@[pos.col as int]@[pos.row as int]
    }

    /// A table where no position is bound.
    pub fn new(cols: usize, rows: usize) -> (r: MacroTable)
        ensures
            r.wf(),
            r.cols == cols,
            r.rows == rows,
            forall|p: KeyPosition| r.contains(p) ==> #[trigger] r.binding(p) is Unbound,
    {
        let mut cells: Vec<Vec<Binding>> = Vec::new();
        let mut c: usize = 0;
        while c < cols
            invariant
                c <= cols,
                cells@.len() == c,
                forall|i: int| 0 <= i < c ==> (#[trigger] cells@[i])@.len() == rows,
                forall|i: int, j: int|
                    0 <= i < c && 0 <= j < rows ==> cells@[i]@[j] is Unbound,
            decreases cols - c,
        {
            let mut column: Vec<Binding> = Vec::new();
            let mut r: usize = 0;
            while r < rows
                invariant
                    r <= rows,
                    column@.len() == r,
                    forall|j: int| 0 <= j < r ==> (#[trigger] column@[j]) is Unbound,
                decreases rows - r,
            {
                column.push(Binding::Unbound);
                r = r + 1;
            }
            cells.push(column);
            c = c + 1;
        }
        let t = MacroTable { cols, rows, cells };
        assert forall|p: KeyPosition| t.contains(p) implies #[trigger] t.binding(p) is Unbound by {
            assert(t.cells@[p.col as int]@[p.row as int] is Unbound);
        }
        t
    }

    /// Binds a position. A position outside the matrix, or one that is
    /// already bound, is refused and the table is left as it was.
    pub fn bind(&mut self, pos: KeyPosition, binding: Binding) -> (r: Result<(), ConfigError>)
        requires
            old(self).wf(),
        ensures
            final(self).wf(),
            final(self).cols == old(self).cols,
            final(self).rows == old(self).rows,
            !old(self).contains(pos) ==> r == Err::<(), ConfigError>(
                ConfigError::PositionOutOfRange,
            ) && *final(self) == *old(self),
            old(self).contains(pos) && !(old(self).binding(pos) is Unbound) ==> r == Err::<
                (),
                ConfigError,
            >(ConfigError::AlreadyBound) && *final(self) == *old(self),
            old(self).contains(pos) && old(self).binding(pos) is Unbound ==> r is Ok
                && final(self).binding(pos) == binding && forall|p: KeyPosition|
                p != pos && old(self).contains(p) ==> #[trigger] final(self).binding(p)
                    == old(self).binding(p),
    {
        if pos.col >= self.cols || pos.row >= self.rows {
            return Err(ConfigError::PositionOutOfRange);
        }
        let free = match &self.cells[pos.col][pos.row] {
            Binding::Unbound => true,
            _ => false,
        };
        if !free {
            return Err(ConfigError::AlreadyBound);
        }
        let ghost before = *self;
        self.cells[pos.col][pos.row] = binding;
        assert forall|p: KeyPosition| p != pos && before.contains(p) implies #[trigger] self.binding(
            p,
        ) == before.binding(p) by {
            if p.col != pos.col {
                assert(self.cells@[p.col as int] == before.cells@[p.col as int]);
            }
        }
        Ok(())
    }

    /// The binding of a position of the matrix.
    pub fn lookup(&self, pos: KeyPosition) -> (r: &Binding)
        requires
            self.wf(),
            self.contains(pos),
        ensures
            *r == self.binding(pos),
    {
        &self.cells[pos.col][pos.row]
    }
}

} // verus!
