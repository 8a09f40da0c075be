use png_sequence_export::line_strips::{clamped_to_edge, first_copied};

#[test]
fn first_copied_takes_first_element() {
    assert_eq!(first_copied(Some(&[3u8, 4][..])), Some(3));
    assert_eq!(first_copied::<u8>(Some(&[][..])), None);
    assert_eq!(first_copied::<u8>(None), None);
    assert_eq!(first_copied(Some(&[[0.5f64, 2.0]][..])), Some([0.5, 2.0]));
}

#[test]
fn clamped_to_edge_repeats_last_value() {
    assert_eq!(clamped_to_edge(&[1.0f64, 2.0], 4, 0.0), vec![1.0, 2.0, 2.0, 2.0]);
    assert_eq!(clamped_to_edge(&[1.0f64, 2.0, 3.0], 2, 0.0), vec![1.0, 2.0]);
}

#[test]
fn clamped_to_edge_uses_fallback_when_empty() {
    assert_eq!(clamped_to_edge::<f64>(&[], 3, 0.0), vec![0.0, 0.0, 0.0]);
    assert_eq!(clamped_to_edge(&[5u32], 0, 9), Vec::<u32>::new());
}
