use pcm::{NotationError, NoteAlter, NoteLitera, NoteMusicalNotation};

#[test]
fn fields_of_a_sharp_note() {
    let n = NoteMusicalNotation::from_tab_fields("B", "#", "1").unwrap();
    assert_eq!(n.litera(), NoteLitera::B);
    assert_eq!(n.alter(), Some(NoteAlter::Sharp));
    assert_eq!(n.octave(), 1);
    assert_eq!(n.calculate_distance_from_origin(), 2 - 36 + 1);
}

#[test]
fn fields_without_accidental_and_with_flat() {
    let n = NoteMusicalNotation::from_tab_fields("C", "", "4").unwrap();
    assert_eq!(n.alter(), None);
    assert_eq!(n.calculate_distance_from_origin(), -9);
    let f = NoteMusicalNotation::from_tab_fields("E", "b", "12").unwrap();
    assert_eq!(f.alter(), Some(NoteAlter::Flat));
    assert_eq!(f.octave(), 12);
}

#[test]
fn every_letter_is_recognised() {
    let letters = [
        ("A", NoteLitera::A),
        ("B", NoteLitera::B),
        ("C", NoteLitera::C),
        ("D", NoteLitera::D),
        ("E", NoteLitera::E),
        ("F", NoteLitera::F),
        ("G", NoteLitera::G),
    ];
    for (text, litera) in letters {
        let n = NoteMusicalNotation::from_tab_fields(text, "", "4").unwrap();
        assert_eq!(n.litera(), litera);
    }
}

#[test]
fn unknown_letter_is_refused() {
    assert_eq!(
        NoteMusicalNotation::from_tab_fields("H", "", "4").unwrap_err(),
        NotationError::UnknownLitera
    );
    assert_eq!(
        NoteMusicalNotation::from_tab_fields("AB", "", "4").unwrap_err(),
        NotationError::UnknownLitera
    );
    assert_eq!(
        NoteMusicalNotation::from_tab_fields("", "x", "").unwrap_err(),
        NotationError::UnknownLitera
    );
}

#[test]
fn unknown_accidental_is_refused() {
    assert_eq!(
        NoteMusicalNotation::from_tab_fields("A", "x", "4").unwrap_err(),
        NotationError::UnknownAlter
    );
    assert_eq!(
        NoteMusicalNotation::from_tab_fields("A", "##", "").unwrap_err(),
        NotationError::UnknownAlter
    );
}

#[test]
fn bad_octave_is_refused() {
    assert_eq!(
        NoteMusicalNotation::from_tab_fields("A", "#", "").unwrap_err(),
        NotationError::InvalidOctave
    );
    assert_eq!(
        NoteMusicalNotation::from_tab_fields("A", "", "4a").unwrap_err(),
        NotationError::InvalidOctave
    );
    assert_eq!(
        NoteMusicalNotation::from_tab_fields("A", "", "4294967296").unwrap_err(),
        NotationError::InvalidOctave
    );
}

#[test]
fn largest_octave_is_accepted() {
    let n = NoteMusicalNotation::from_tab_fields("A", "", "4294967295").unwrap();
    assert_eq!(n.octave(), u32::MAX);
    let z = NoteMusicalNotation::from_tab_fields("A", "", "007").unwrap();
    assert_eq!(z.octave(), 7);
}
