use remotecontrol::annexb::{
    build_stap_a, find_start_code, is_keyframe, last_unit_with_type, nalu_ranges_of, split_nalus,
    validate_annex_b, NAL_TYPE_PPS, NAL_TYPE_SPS,
};

fn sample_stream() -> Vec<u8> {
    // SPS (type 7), PPS (type 8) and an IDR slice (type 5).
    vec![
        0, 0, 0, 1, 0x67, 0x42, 0x00, 0x1e, // SPS
        0, 0, 0, 1, 0x68, 0xce, 0x3c, 0x80, // PPS
        0, 0, 0, 1, 0x65, 0x88, 0x84, // IDR
    ]
}

#[test]
fn keyframe_detected_in_idr_stream() {
    assert!(is_keyframe(&sample_stream()));
}

#[test]
fn header_follows_the_start_code() {
    // The NAL header is the byte right after the start code, whatever its length.
    assert!(is_keyframe(&[0, 0, 0, 1, 0x65, 0]));
    assert!(is_keyframe(&[9, 0, 0, 0, 1, 0x65]));
    assert!(is_keyframe(&[0x00, 0x00, 0x01, 0x65, 0x88]));
    assert!(is_keyframe(&[9, 0, 0, 1, 0x65, 0x88]));
    assert!(!is_keyframe(&[0, 0, 1, 0x41, 0x65]));
    let marks = validate_annex_b(&[0, 0, 1, 0x65, 0x88]);
    assert_eq!(marks.len(), 1);
    assert_eq!((marks[0].offset, marks[0].header_distance, marks[0].nal_type), (0, 3, 5));
    // Split units keep three-byte codes too.
    assert_eq!(split_nalus(&[0, 0, 1, 0x65, 7]), vec![vec![0x65, 7]]);
}

#[test]
fn delta_frame_is_not_keyframe() {
    let p_frame = vec![0, 0, 0, 1, 0x41, 0x9a, 0x02, 0x03];
    assert!(!is_keyframe(&p_frame));
    assert!(!is_keyframe(&[]));
    assert!(!is_keyframe(&[0, 0, 1]));
}

#[test]
fn start_code_prefers_four_byte_code() {
    // A three-byte code at 1 and a four-byte one at 5: the four-byte one wins.
    let d = vec![9, 0, 0, 1, 7, 0, 0, 0, 1, 5];
    assert_eq!(find_start_code(&d), Some(5));
    assert_eq!(find_start_code(&[0, 0, 1, 3]), Some(0));
    assert_eq!(find_start_code(&[1, 2, 3]), None);
}

#[test]
fn nal_units_split_without_start_codes() {
    let units = split_nalus(&sample_stream());
    assert_eq!(units.len(), 3);
    assert_eq!(units[0], vec![0x67, 0x42, 0x00, 0x1e]);
    assert_eq!(units[1], vec![0x68, 0xce, 0x3c, 0x80]);
    assert_eq!(units[2], vec![0x65, 0x88, 0x84]);
    let ranges = nalu_ranges_of(&sample_stream());
    assert_eq!(ranges, vec![(4, 8), (12, 16), (20, 23)]);
}

#[test]
fn data_without_start_code_is_one_unit() {
    assert_eq!(split_nalus(&[5, 6, 7]), vec![vec![5, 6, 7]]);
    assert_eq!(split_nalus(&[]).len(), 0);
}

#[test]
fn parameter_sets_found_by_type() {
    let units = split_nalus(&sample_stream());
    assert_eq!(last_unit_with_type(&units, NAL_TYPE_SPS), Some(vec![0x67, 0x42, 0x00, 0x1e]));
    assert_eq!(last_unit_with_type(&units, NAL_TYPE_PPS), Some(vec![0x68, 0xce, 0x3c, 0x80]));
    assert_eq!(last_unit_with_type(&units, 1), None);
}

#[test]
fn stap_a_layout() {
    let stap = build_stap_a(&[0x67, 1, 2], &[0x68, 3]);
    assert_eq!(stap, vec![0x78, 0, 3, 0x67, 1, 2, 0, 2, 0x68, 3]);
}

#[test]
fn annex_b_marks_found() {
    let marks = validate_annex_b(&sample_stream());
    assert!(!marks.is_empty());
    assert_eq!(marks[0].offset, 0);
    assert_eq!(marks[0].nal_type, 7);
}
