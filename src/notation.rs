//! Building a pitch from the text fields of a note token: a letter, an accidental
//! marker and an octave number.

use vstd::prelude::*;
use crate::pitch::{NoteAlter, NoteLitera, NoteMusicalNotation};

verus! {

/// Why the fields of a note token do not name a pitch.
#[derive(Clone, Copy, Debug, PartialEq, Eq, Structural)]
pub enum NotationError {
    /// The letter field is not one of `A` to `G`.
    UnknownLitera,
    /// The accidental field is neither empty, `#` nor `b`.
    UnknownAlter,
    /// The octave field is not a decimal number that fits in a `u32`.
    InvalidOctave,
}

/// The letter that the character `c` names.
pub open spec fn litera_of_char(c: char) -> Option<NoteLitera> {
    if c == 'A' {
        Some(NoteLitera::A)
    } else if c == 'B' {
        Some(NoteLitera::B)
    } else if c == 'C' {
        Some(NoteLitera::C)
    } else if c == 'D' {
        Some(NoteLitera::D)
    } else if c == 'E' {
        Some(NoteLitera::E)
    } else if c == 'F' {
        Some(NoteLitera::F)
    } else if c == 'G' {
        Some(NoteLitera::G)
    } else {
        None
    }
}

/// The letter that a field of exactly one character names.
pub open spec fn litera_of(s: Seq<char>) -> Option<NoteLitera> {
    if s.len() == 1 {
        litera_of_char(s[0])
    } else {
        None
    }
}

/// The accidental that a field names: none for an empty field, a sharp for `#`, a flat
/// for `b`; the outer `None` for anything else.
pub open spec fn alter_of(s: Seq<char>) -> Option<Option<NoteAlter>> {
    if s.len() == 0 {
        Some(None)
    } else if s.len() == 1 && s[0] == '#' {
        Some(Some(NoteAlter::Sharp))
    } else if s.len() == 1 && s[0] == 'b' {
        Some(Some(NoteAlter::Flat))
    } else {
        None
    }
}

pub open spec fn is_digit(c: char) -> bool {
    '0' as u32 <= c as u32 <= '9' as u32
}

pub open spec fn all_digits(s: Seq<char>) -> bool {
    forall|i: int| 0 <= i < s.len() ==> is_digit(#[trigger] s[i])
}

/// The value of a string of decimal digits, most significant first.
pub open spec fn decimal_value(s: Seq<char>) -> int
    decreases s.len(),
{
    if s.len() == 0 {
        0
    } else {
        10 * decimal_value(s.drop_last()) + (s.last() as u32 - '0' as u32)
    }
}

/// The octave that a field names: a non-empty string of decimal digits whose value
/// fits in a `u32`.
pub open spec fn octave_of(s: Seq<char>) -> Option<u32> {
    if s.len() > 0 && all_digits(s) && decimal_value(s) <= u32::MAX {
        Some(decimal_value(s) as u32)
    } else {
        None
    }
}

/// A string of digits is worth at least as much as each of its prefixes.
proof fn lemma_decimal_value_prefix(s: Seq<char>, k: int)
    requires
        all_digits(s),
        0 <= k <= s.len(),
    ensures
        decimal_value(s.subrange(0, k)) <= decimal_value(s),
        0 <= decimal_value(s),
    decreases s.len(),
{
    if s.len() > 0 {
        let init = s.drop_last();
        assert(all_digits(init)) by {
            assert forall|i: int| 0 <= i < init.len() implies is_digit(#[trigger] init[i]) by {
                assert(init[i] == s[i]);
            }
        }
        assert(is_digit(s[s.len() - 1]));
        if k < s.len() {
            assert(init.subrange(0, k) =~= s.subrange(0, k));
            lemma_decimal_value_prefix(init, k);
        } else {
            assert(s.subrange(0, k) =~= s);
            lemma_decimal_value_prefix(init, 0);
        }
    } else {
        assert(s.subrange(0, k) =~= s);
    }
}

fn parse_litera(s: &str) -> (r: Option<NoteLitera>)
    ensures
        r == litera_of(s@),
{
    if s.unicode_len() != 1 {
        return None;
    }
    let c = s.get_char(0);
    if c == 'A' {
        Some(NoteLitera::A)
    } else if c == 'B' {
        Some(NoteLitera::B)
    } else if c == 'C' {
        Some(NoteLitera::C)
    } else if c == 'D' {
        Some(NoteLitera::D)
    } else if c == 'E' {
        Some(NoteLitera::E)
    } else if c == 'F' {
        Some(NoteLitera::F)
    } else if c == 'G' {
        Some(NoteLitera::G)
    } else {
        None
    }
}

fn parse_alter(s: &str) -> (r: Option<Option<NoteAlter>>)
    ensures
        r == alter_of(s@),
{
    let len = s.unicode_len();
    if len == 0 {
        return Some(None);
    }
    if len != 1 {
        return None;
    }
    let c = s.get_char(0);
    if c == '#' {
        Some(Some(NoteAlter::Sharp))
    } else if c == 'b' {
        Some(Some(NoteAlter::Flat))
    } else {
        None
    }
}

fn parse_octave(s: &str) -> (r: Option<u32>)
    ensures
        r == octave_of(s@),
{
    let len = s.unicode_len();
    if len == 0 {
        return None;
    }
    let mut value: u64 = 0;
    let mut i: usize = 0;
    while i < len
        invariant
            len == s@.len(),
            i <= len,
            all_digits(s@.subrange(0, i as int)),
            value == decimal_value(s@.subrange(0, i as int)),
            value <= u32::MAX,
        decreases len - i,
    {
        let c = s.get_char(i);
        let code = c as u32;
        if code < '0' as u32 || code > '9' as u32 {
            assert(!all_digits(s@));
            return None;
        }
        let prefix = Ghost(s@.subrange(0, i as int));
        let next = Ghost(s@.subrange(0, i + 1));
        assert(next@.drop_last() =~= prefix@);
        assert(all_digits(next@)) by {
            assert forall|j: int| 0 <= j < next@.len() implies is_digit(#[trigger] next@[j]) by {
                if j < i {
                    assert(next@[j] == prefix@[j]);
                }
            }
        }
        value = value * 10 + (code - '0' as u32) as u64;
        i = i + 1;
        if value > 0xFFFF_FFFF {
            proof {
                if all_digits(s@) {
                    lemma_decimal_value_prefix(s@, i as int);
                }
            }
            return None;
        }
    }
    assert(s@.subrange(0, len as int) =~= s@);
    Some(value as u32)
}

impl NoteMusicalNotation {
    /// Builds a pitch from the fields of a note token: a letter `A` to `G`, an
    /// accidental (`#` for sharp, `b` for flat, empty for none) and a decimal octave.
    /// The first field that names nothing decides the error.
    pub fn from_tab_fields(litera: &str, alter: &str, octave: &str) -> (r: Result<
        NoteMusicalNotation,
        NotationError,
    >)
        ensures
            litera_of(litera@) is None ==> r == Err::<NoteMusicalNotation, NotationError>(
                NotationError::UnknownLitera,
            ),
            litera_of(litera@) is Some && alter_of(alter@) is None ==> r == Err::<
                NoteMusicalNotation,
                NotationError,
            >(NotationError::UnknownAlter),
            litera_of(litera@) is Some && alter_of(alter@) is Some && octave_of(octave@) is None
                ==> r == Err::<NoteMusicalNotation, NotationError>(NotationError::InvalidOctave),
            r is Ok <==> (litera_of(litera@) is Some && alter_of(alter@) is Some && octave_of(
                octave@,
            ) is Some),
            r matches Ok(n) ==> (Some(n.spec_litera()) == litera_of(litera@) && Some(
                n.spec_alter(),
            ) == alter_of(alter@) && Some(n.spec_octave()) == octave_of(octave@)),
    {
        let l = match parse_litera(litera) {
            Some(l) => l,
            None => return Err(NotationError::UnknownLitera),
        };
        let a = match parse_alter(alter) {
            Some(a) => a,
            None => return Err(NotationError::UnknownAlter),
        };
        let o = match parse_octave(octave) {
            Some(o) => o,
            None => return Err(NotationError::InvalidOctave),
        };
        Ok(NoteMusicalNotation::new(l, a, o))
    }
}

} // verus!
