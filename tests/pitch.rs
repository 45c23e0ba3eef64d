use pcm::{NoteAlter, NoteLitera, NoteMusicalNotation};

fn distance(l: NoteLitera, a: Option<NoteAlter>, octave: u32) -> i64 {
    NoteMusicalNotation::new(l, a, octave).calculate_distance_from_origin()
}

fn frequency(distance: i64) -> f64 {
    440.0 * 2.0_f64.powf(distance as f64 / 12.0)
}

#[test]
fn litera_offsets_from_a() {
    assert_eq!(i32::from(NoteLitera::C), -9);
    assert_eq!(i32::from(NoteLitera::D), -7);
    assert_eq!(i32::from(NoteLitera::E), -5);
    assert_eq!(i32::from(NoteLitera::F), -4);
    assert_eq!(i32::from(NoteLitera::G), -2);
    assert_eq!(i32::from(NoteLitera::A), 0);
    assert_eq!(i32::from(NoteLitera::B), 2);
}

#[test]
fn reference_pitch_is_at_origin() {
    assert_eq!(distance(NoteLitera::A, None, 4), 0);
    assert_eq!(frequency(distance(NoteLitera::A, None, 4)), 440.0);
}

#[test]
fn octave_above_reference_doubles() {
    assert_eq!(distance(NoteLitera::A, None, 5), 12);
    assert!((frequency(distance(NoteLitera::A, None, 5)) - 880.0).abs() < 1e-9);
    assert_eq!(distance(NoteLitera::A, None, 3), -12);
}

#[test]
fn sharp_is_one_semitone_up() {
    assert_eq!(distance(NoteLitera::A, Some(NoteAlter::Sharp), 4), 1);
    let expected = 440.0 * 2.0_f64.powf(1.0 / 12.0);
    assert!((frequency(distance(NoteLitera::A, Some(NoteAlter::Sharp), 4)) - expected).abs() < 1e-9);
}

#[test]
fn flat_is_one_semitone_down() {
    assert_eq!(distance(NoteLitera::A, Some(NoteAlter::Flat), 4), -1);
    assert_eq!(distance(NoteLitera::B, Some(NoteAlter::Flat), 4), 1);
    assert_eq!(distance(NoteLitera::C, Some(NoteAlter::Sharp), 4), -8);
}

#[test]
fn c_major_scale_from_c4_to_c5() {
    let scale = [
        (NoteLitera::C, 4),
        (NoteLitera::D, 4),
        (NoteLitera::E, 4),
        (NoteLitera::F, 4),
        (NoteLitera::G, 4),
        (NoteLitera::A, 4),
        (NoteLitera::B, 4),
        (NoteLitera::C, 5),
    ];
    let distances: Vec<i64> = scale.iter().map(|&(l, o)| distance(l, None, o)).collect();
    assert_eq!(distances, vec![-9, -7, -5, -4, -2, 0, 2, 3]);
    assert!((frequency(distances[0]) - 261.6255653005986).abs() < 1e-9);
}

#[test]
fn lowest_and_highest_octaves() {
    assert_eq!(distance(NoteLitera::C, Some(NoteAlter::Flat), 0), -58);
    assert_eq!(
        distance(NoteLitera::B, Some(NoteAlter::Sharp), u32::MAX),
        2 + 12 * (u32::MAX as i64 - 4) + 1
    );
}

#[test]
fn notation_keeps_its_fields() {
    let n = NoteMusicalNotation::new(NoteLitera::G, Some(NoteAlter::Sharp), 3);
    assert_eq!(n.litera(), NoteLitera::G);
    assert_eq!(n.alter(), Some(NoteAlter::Sharp));
    assert_eq!(n.octave(), 3);
}
