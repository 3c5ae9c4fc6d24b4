use usb_audio_sniffer::frame::{AudioFrame, MAX_DATA_SIZE};

#[test]
fn new_frame_is_empty() {
    let frame = AudioFrame::new();
    assert!(frame.slice().is_empty());
    assert_eq!(frame.len(), 0);
}

#[test]
fn capacity_is_1280() {
    assert_eq!(MAX_DATA_SIZE, 1280);
}

#[test]
fn fill_sets_the_window() {
    let mut frame = AudioFrame::new();
    frame.fill(&[1, 2, 3, 4, 5]);
    assert_eq!(frame.slice(), &[1, 2, 3, 4, 5]);
    assert_eq!(frame.len(), 5);
}

#[test]
fn fill_replaces_an_earlier_window() {
    let mut frame = AudioFrame::new();
    frame.fill(&[9, 9, 9, 9, 9, 9]);
    frame.remove_start(2);
    frame.fill(&[7, 8]);
    assert_eq!(frame.slice(), &[7, 8]);
}

#[test]
fn fill_takes_a_full_buffer() {
    let payload: Vec<u8> = (0..MAX_DATA_SIZE).map(|i| (i % 251) as u8).collect();
    let mut frame = AudioFrame::new();
    frame.fill(&payload);
    assert_eq!(frame.len(), MAX_DATA_SIZE);
    assert_eq!(frame.slice(), payload.as_slice());
}

#[test]
fn remove_start_drops_leading_bytes() {
    let mut frame = AudioFrame::new();
    frame.fill(&[10, 20, 30, 40]);
    frame.remove_start(1);
    assert_eq!(frame.slice(), &[20, 30, 40]);
    frame.remove_start(0);
    assert_eq!(frame.slice(), &[20, 30, 40]);
    frame.remove_start(3);
    assert!(frame.slice().is_empty());
}

#[test]
fn remove_end_drops_trailing_bytes() {
    let mut frame = AudioFrame::new();
    frame.fill(&[10, 20, 30, 40]);
    frame.remove_end(2);
    assert_eq!(frame.slice(), &[10, 20]);
    frame.remove_end(2);
    assert!(frame.slice().is_empty());
}

#[test]
fn remove_start_then_end_leaves_the_middle() {
    let mut frame = AudioFrame::new();
    frame.fill(&[0xc3, 1, 2, 3, 4, 0xaa, 0xbb]);
    frame.remove_start(1);
    frame.remove_end(2);
    assert_eq!(frame.slice(), &[1, 2, 3, 4]);
    assert_eq!(frame.len(), 4);
}
