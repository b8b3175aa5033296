use presto::audio::Notes;

const ALL_NOTES: [Notes; 7] = [
    Notes::C4,
    Notes::D4,
    Notes::E4,
    Notes::F4,
    Notes::G4,
    Notes::A4,
    Notes::B4,
];

#[test]
fn note_periods_are_exact() {
    assert_eq!(Notes::C4.note(), 45866);
    assert_eq!(Notes::D4.note(), 40863);
    assert_eq!(Notes::E4.note(), 36404);
    assert_eq!(Notes::F4.note(), 34361);
    assert_eq!(Notes::G4.note(), 30612);
    assert_eq!(Notes::A4.note(), 27272);
    assert_eq!(Notes::B4.note(), 24297);
}

#[test]
fn rest_is_silent() {
    assert_eq!(Notes::Space.note(), 0);
    assert_eq!(Notes::Space.centihertz(), 0);
}

#[test]
fn note_periods_match_float_division() {
    let freqs: [f32; 7] = [261.63, 293.66, 329.63, 349.23, 392.00, 440.00, 493.88];
    for (note, freq) in ALL_NOTES.iter().zip(freqs.iter()) {
        assert_eq!(note.note(), (12_000_000 as f32 / *freq) as u16);
    }
}

#[test]
fn centihertz_gives_the_listed_frequencies() {
    let freqs: [f32; 7] = [261.63, 293.66, 329.63, 349.23, 392.00, 440.00, 493.88];
    for (note, freq) in ALL_NOTES.iter().zip(freqs.iter()) {
        assert_eq!(note.centihertz() as f32 / 100.0, *freq);
    }
}

#[test]
fn higher_notes_have_shorter_periods() {
    for pair in ALL_NOTES.windows(2) {
        assert!(pair[0].centihertz() < pair[1].centihertz());
        assert!(pair[1].note() < pair[0].note());
        assert!(pair[1].note() > 0);
    }
}
