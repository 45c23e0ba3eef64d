//! Pitches in letter notation and their distance, in equal-tempered semitones,
//! from the reference pitch A4.

use vstd::prelude::*;

verus! {

/// The seven diatonic letters.
#[derive(Clone, Copy, Debug, PartialEq, Eq, Structural)]
pub enum NoteLitera {
    A,
    B,
    C,
    D,
    E,
    F,
    G,
}

/// An accidental: a sharp raises the pitch by one semitone, a flat lowers it by one.
#[derive(Clone, Copy, Debug, PartialEq, Eq, Structural)]
pub enum NoteAlter {
    Sharp,
    Flat,
}

/// The octave of the reference pitch A4 (440 Hz).
pub const ORIGIN_NOTE_OCTAVE: i64 = 4;

/// Semitones from A to the given letter within one octave.
pub open spec fn litera_offset(l: NoteLitera) -> int {
    match l {
        NoteLitera::C => -9,
        NoteLitera::D => -7,
        NoteLitera::E => -5,
        NoteLitera::F => -4,
        NoteLitera::G => -2,
        NoteLitera::A => 0,
        NoteLitera::B => 2,
    }
}

/// Semitones that an optional accidental adds.
pub open spec fn alter_offset(a: Option<NoteAlter>) -> int {
    match a {
        Some(NoteAlter::Sharp) => 1,
        Some(NoteAlter::Flat) => -1,
        None => 0,
    }
}

/// Semitones from A4 to the pitch with the given letter, accidental and octave.
pub open spec fn semitones_from_origin(l: NoteLitera, a: Option<NoteAlter>, octave: int) -> int {
    litera_offset(l) - 12 * (ORIGIN_NOTE_OCTAVE - octave) + alter_offset(a)
}

impl From<NoteLitera> for i32 {
    fn from(note: NoteLitera) -> (r: i32) {
        match note {
            NoteLitera::C => -9,
            NoteLitera::D => -7,
            NoteLitera::E => -5,
            NoteLitera::F => -4,
            NoteLitera::G => -2,
            NoteLitera::A => 0,
            NoteLitera::B => 2,
        }
    }
}

impl vstd::std_specs::convert::FromSpecImpl<NoteLitera> for i32 {
    open spec fn obeys_from_spec() -> bool {
        true
    }

    open spec fn from_spec(note: NoteLitera) -> i32 {
        litera_offset(note) as i32
    }
}

/// A pitch in letter notation: a letter, an optional accidental and an octave.
#[derive(Clone, Copy, Debug)]
pub struct NoteMusicalNotation {
    litera: NoteLitera,
    alter: Option<NoteAlter>,
    octave: u32,
}

impl NoteMusicalNotation {
    pub closed spec fn spec_litera(self) -> NoteLitera {
        self.litera
    }

    pub closed spec fn spec_alter(self) -> Option<NoteAlter> {
        self.alter
    }

    pub closed spec fn spec_octave(self) -> u32 {
        self.octave
    }

    /// Semitones from A4 to this pitch.
    pub open spec fn spec_distance(self) -> int {
        semitones_from_origin(self.spec_litera(), self.spec_alter(), self.spec_octave() as int)
    }

    pub fn new(litera: NoteLitera, alter: Option<NoteAlter>, octave: u32) -> (r: NoteMusicalNotation)
        ensures
            r.spec_litera() == litera,
            r.spec_alter() == alter,
            r.spec_octave() == octave,
    {
        NoteMusicalNotation { litera, alter, octave }
    }

    pub fn litera(&self) -> (r: NoteLitera)
        ensures
            r == self.spec_litera(),
    {
        self.litera
    }

    pub fn alter(&self) -> (r: Option<NoteAlter>)
        ensures
            r == self.spec_alter(),
    {
        self.alter
    }

    pub fn octave(&self) -> (r: u32)
        ensures
            r == self.spec_octave(),
    {
        self.octave
    }

    /// Semitones from A4 to this pitch: the letter's offset from A, twelve for each
    /// octave above the fourth (minus twelve for each below), and one for a sharp
    /// (minus one for a flat).
    pub fn calculate_distance_from_origin(&self) -> (r: i64)
        ensures
            r == self.spec_distance(),
    {
        let litera_value = i32::from(self.litera) as i64;
        let octave_distance: i64 = ORIGIN_NOTE_OCTAVE - self.octave as i64;
        let alter_value: i64 = match self.alter {
            Some(NoteAlter::Flat) => -1,
            Some(NoteAlter::Sharp) => 1,
            None => 0,
        };
        litera_value - 12 * octave_distance + alter_value
    }
}

/// The reference pitch, A with no accidental in the fourth octave, lies at distance zero
/// from itself, so it resolves to the reference frequency.
pub proof fn lemma_reference_pitch_at_origin(n: NoteMusicalNotation)
    requires
        n.spec_litera() == NoteLitera::A,
        n.spec_alter() == None::<NoteAlter>,
        n.spec_octave() == 4,
    ensures
        n.spec_distance() == 0,
{
}

/// Raising the octave by one, with letter and accidental unchanged, adds twelve
/// semitones: the frequency doubles.
pub proof fn lemma_octave_up_adds_twelve(low: NoteMusicalNotation, high: NoteMusicalNotation)
    requires
        high.spec_litera() == low.spec_litera(),
        high.spec_alter() == low.spec_alter(),
        high.spec_octave() == low.spec_octave() + 1,
    ensures
        high.spec_distance() == low.spec_distance() + 12,
{
}

/// A sharp lies one semitone above, and a flat one semitone below, the same letter
/// and octave without accidental.
pub proof fn lemma_accidental_shifts_one(natural: NoteMusicalNotation, altered: NoteMusicalNotation)
    requires
        altered.spec_litera() == natural.spec_litera(),
        altered.spec_octave() == natural.spec_octave(),
        natural.spec_alter() == None::<NoteAlter>,
        altered.spec_alter() is Some,
    ensures
        altered.spec_alter() == Some(NoteAlter::Sharp) ==> altered.spec_distance()
            == natural.spec_distance() + 1,
        altered.spec_alter() == Some(NoteAlter::Flat) ==> altered.spec_distance()
            == natural.spec_distance() - 1,
{
}

} // verus!
