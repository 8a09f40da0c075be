use png_sequence_export::frame_name::{decimal_digits_of, frame_file_name};

#[test]
fn frame_names_are_zero_padded_to_six_digits() {
    assert_eq!(frame_file_name(0), "frame_000000.png");
    assert_eq!(frame_file_name(7), "frame_000007.png");
    assert_eq!(frame_file_name(42), "frame_000042.png");
    assert_eq!(frame_file_name(999_999), "frame_999999.png");
}

#[test]
fn frame_names_grow_past_six_digits() {
    assert_eq!(frame_file_name(1_000_000), "frame_1000000.png");
    assert_eq!(frame_file_name(u64::MAX), format!("frame_{:06}.png", u64::MAX));
}

#[test]
fn frame_names_match_std_formatting() {
    for i in [0u64, 1, 9, 10, 99, 100, 12345, 123456, 9_876_543_210] {
        assert_eq!(frame_file_name(i), format!("frame_{i:06}.png"));
    }
}

#[test]
fn decimal_digits_have_no_leading_zeros() {
    assert_eq!(decimal_digits_of(0), vec!['0']);
    assert_eq!(decimal_digits_of(305), vec!['3', '0', '5']);
}

#[test]
fn distinct_frames_get_distinct_names() {
    let names: std::collections::HashSet<String> = (0..2000u64).map(frame_file_name).collect();
    assert_eq!(names.len(), 2000);
}
