use ntsc_plugin::field::FieldSpec;
use ntsc_plugin::frame::to_planar;
use ntsc_plugin::frame::write_packed;

fn round_trip(input: &Vec<u8>, width: usize, height: usize, field: FieldSpec) -> Vec<u8> {
    let planar = to_planar(input, width, height, field);
    let mut out: Vec<u8> = vec![0; input.len()];
    write_packed(&planar, &mut out);
    out
}

#[test]
fn progressive_round_trip_is_exact() {
    let input: Vec<u8> = vec![
        10, 20, 30, 255, 40, 50, 60, 255, 70, 80, 90, 255, 200, 150, 100, 255,
    ];
    assert_eq!(round_trip(&input, 2, 2, FieldSpec::Both), input);
}

#[test]
fn progressive_round_trip_survives_wrapping_chrominance() {
    // red below green and blue above green exercise both wrap directions
    let input: Vec<u8> = vec![0, 200, 5, 255, 255, 1, 254, 255];
    assert_eq!(round_trip(&input, 2, 1, FieldSpec::Both), input);
}

#[test]
fn planar_planes_hold_the_transform() {
    let input: Vec<u8> = vec![9, 4, 6, 255];
    let planar = to_planar(&input, 1, 1, FieldSpec::Both);
    assert_eq!(planar.luma, vec![4]);
    assert_eq!(planar.chroma_i, vec![5]); // 9 - 4
    assert_eq!(planar.chroma_q, vec![2]); // 6 - 4
    assert_eq!(planar.width, 1);
    assert_eq!(planar.height, 1);
    assert_eq!(planar.field, FieldSpec::Both);
}

#[test]
fn upper_field_zeroes_odd_rows_in_planar() {
    let input: Vec<u8> = vec![1, 2, 3, 255, 4, 5, 6, 255, 7, 8, 9, 255, 10, 11, 12, 255];
    let planar = to_planar(&input, 2, 2, FieldSpec::Upper);
    assert_eq!(planar.luma, vec![2, 5, 0, 0]);
    assert_eq!(planar.chroma_i, vec![255, 255, 0, 0]); // 1-2 and 4-5, wrapping
    assert_eq!(planar.chroma_q, vec![1, 1, 0, 0]);
}

#[test]
fn upper_field_bob_duplicates_row_above() {
    let input: Vec<u8> = vec![1, 2, 3, 255, 4, 5, 6, 255, 7, 8, 9, 255, 10, 11, 12, 255];
    let out = round_trip(&input, 2, 2, FieldSpec::Upper);
    let expected: Vec<u8> = vec![1, 2, 3, 255, 4, 5, 6, 255, 1, 2, 3, 255, 4, 5, 6, 255];
    assert_eq!(out, expected);
}

#[test]
fn lower_field_bob_duplicates_row_below() {
    let input: Vec<u8> = vec![1, 2, 3, 255, 4, 5, 6, 255, 7, 8, 9, 255, 10, 11, 12, 255];
    let out = round_trip(&input, 2, 2, FieldSpec::Lower);
    let expected: Vec<u8> = vec![7, 8, 9, 255, 10, 11, 12, 255, 7, 8, 9, 255, 10, 11, 12, 255];
    assert_eq!(out, expected);
}

#[test]
fn writer_populates_fourth_channel() {
    let input: Vec<u8> = vec![10, 20, 30, 0, 40, 50, 60, 9];
    let out = round_trip(&input, 2, 1, FieldSpec::Both);
    // colour channels reproduced, fourth channel always written as 255
    let expected: Vec<u8> = vec![10, 20, 30, 255, 40, 50, 60, 255];
    assert_eq!(out, expected);
}

#[test]
fn empty_frame_round_trips() {
    let input: Vec<u8> = vec![];
    assert_eq!(round_trip(&input, 0, 0, FieldSpec::Both), input);
}
