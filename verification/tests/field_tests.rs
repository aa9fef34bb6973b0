use ntsc_plugin::field::FieldMode;
use ntsc_plugin::field::FieldSpec;
use ntsc_plugin::field::select;

#[test]
fn alternating_differs_between_consecutive_frames() {
    for k in 0..16usize {
        let a = select(k, FieldMode::Alternating);
        let b = select(k + 1, FieldMode::Alternating);
        assert_ne!(a, b);
        let c = select(k + 2, FieldMode::Alternating);
        assert_eq!(a, c);
    }
}

#[test]
fn alternating_parity_convention() {
    assert_eq!(select(0, FieldMode::Alternating), FieldSpec::Lower);
    assert_eq!(select(1, FieldMode::Alternating), FieldSpec::Upper);
    assert_eq!(select(2, FieldMode::Alternating), FieldSpec::Lower);
}

#[test]
fn fixed_modes_ignore_frame_counter() {
    for k in 0..8usize {
        assert_eq!(select(k, FieldMode::Upper), FieldSpec::Upper);
        assert_eq!(select(k, FieldMode::Lower), FieldSpec::Lower);
        assert_eq!(select(k, FieldMode::Both), FieldSpec::Both);
        assert_eq!(select(k, FieldMode::InterleavedUpper), FieldSpec::InterleavedUpper);
        assert_eq!(select(k, FieldMode::InterleavedLower), FieldSpec::InterleavedLower);
    }
}
