use pluely_audio::{
    capture_to_base64, center_window_completely, png_to_base64, position_window_top_center,
    set_window_height, setup_main_window,
    SnapshotError, WindowPlacement, TOP_OFFSET,
};

#[test]
fn window_is_centred_at_the_top() {
    assert_eq!(position_window_top_center(1920, 700, TOP_OFFSET), (610, 54));
    assert_eq!(position_window_top_center(600, 701, 3), (-50, 3));
}

#[test]
fn window_is_centred_on_both_axes() {
    assert_eq!(center_window_completely(1920, 1080, 700, 400), (610, 340));
}

#[test]
fn resized_window_is_kept_on_screen() {
    assert_eq!(set_window_height(1920, 1080, 100, 100, 400), WindowPlacement { x: 100, y: 100, width: 700, height: 400 });
    assert_eq!(set_window_height(1920, 1080, 1500, 900, 400), WindowPlacement { x: 1220, y: 680, width: 700, height: 400 });
    assert_eq!(set_window_height(600, 300, -20, 10, 500), WindowPlacement { x: 0, y: 0, width: 700, height: 500 });
    assert_eq!(set_window_height(1920, 1080, -20, -5, 100), WindowPlacement { x: 0, y: -5, width: 700, height: 100 });
}

#[test]
fn base64_of_bytes() {
    assert_eq!(png_to_base64(&b"abc".to_vec()), "YWJj");
    assert_eq!(png_to_base64(&b"ab".to_vec()), "YWI=");
    assert_eq!(png_to_base64(&vec![]), "");
}

#[test]
fn capture_is_encoded_as_png_text() {
    let pixels = vec![255u8, 0, 0, 255, 0, 255, 0, 255];
    let text = capture_to_base64(&pixels, 2, 1).unwrap();
    assert!(text.starts_with("iVBORw0KGgo"));
    assert_eq!(text.len() % 4, 0);
}

#[test]
fn capture_with_wrong_buffer_size_is_rejected() {
    assert_eq!(capture_to_base64(&vec![0u8; 7], 2, 1), Err(SnapshotError::BufferSizeMismatch));
}

fn labels(ls: &[&str]) -> Vec<String> {
    ls.iter().map(|l| l.to_string()).collect()
}

#[test]
fn main_window_is_picked_by_label() {
    assert_eq!(setup_main_window(&labels(&["settings", "pluely", "main"])), Some(2));
    assert_eq!(setup_main_window(&labels(&["settings", "pluely"])), Some(1));
    assert_eq!(setup_main_window(&labels(&["settings", "about"])), Some(0));
    assert_eq!(setup_main_window(&labels(&[])), None);
}

#[test]
fn capture_without_pixels_is_refused_by_the_encoder() {
    assert_eq!(capture_to_base64(&vec![], 0, 3), Err(SnapshotError::PngEncoding));
    assert_eq!(capture_to_base64(&vec![], 5, 0), Err(SnapshotError::PngEncoding));
}
