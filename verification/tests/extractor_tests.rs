use usb_audio_sniffer::extractor::{AudioReceiver, DATA_PACKET, MIN_PACKET_LEN, OUT_TOKEN};
use usb_audio_sniffer::frame::AudioFrame;

fn frame_of(payload: &[u8]) -> AudioFrame {
    let mut frame = AudioFrame::new();
    frame.fill(payload);
    frame
}

#[test]
fn marker_bytes() {
    assert_eq!(OUT_TOKEN, 0xe1);
    assert_eq!(DATA_PACKET, 0xc3);
    assert_eq!(MIN_PACKET_LEN, 3);
}

#[test]
fn out_token_then_data_packet_yields_audio() {
    let mut receiver = AudioReceiver::new();
    let mut token = frame_of(&[0xe1, 0x12, 0x34]);
    assert!(!receiver.usb_frame_received(&mut token));
    assert!(receiver.out_frame_received);
    assert_eq!(token.slice(), &[0xe1, 0x12, 0x34]);

    let mut data = frame_of(&[0xc3, 10, 11, 12, 13, 14, 15]);
    assert!(receiver.usb_frame_received(&mut data));
    assert_eq!(data.slice(), &[10, 11, 12, 13]);
    assert!(!receiver.out_frame_received);
}

#[test]
fn data_packet_without_out_token_is_not_audio() {
    let mut receiver = AudioReceiver::new();
    let mut data = frame_of(&[0xc3, 1, 2, 3, 4, 5, 6]);
    assert!(!receiver.usb_frame_received(&mut data));
    assert_eq!(data.slice(), &[0xc3, 1, 2, 3, 4, 5, 6]);
    assert!(!receiver.out_frame_received);
}

#[test]
fn out_token_twice_keeps_waiting_for_data() {
    let mut receiver = AudioReceiver::new();
    let mut first = frame_of(&[0xe1, 0x00, 0x10]);
    assert!(!receiver.usb_frame_received(&mut first));
    assert!(receiver.out_frame_received);
    let mut second = frame_of(&[0xe1, 0x00, 0x10]);
    assert!(!receiver.usb_frame_received(&mut second));
    assert!(receiver.out_frame_received);
}

#[test]
fn short_payload_resets_the_state() {
    let mut receiver = AudioReceiver { out_frame_received: true };
    let mut short = frame_of(&[0xc3, 1]);
    assert!(!receiver.usb_frame_received(&mut short));
    assert!(!receiver.out_frame_received);
    assert_eq!(short.slice(), &[0xc3, 1]);
}

#[test]
fn short_out_token_is_not_recognised() {
    let mut receiver = AudioReceiver::new();
    let mut short = frame_of(&[0xe1]);
    assert!(!receiver.usb_frame_received(&mut short));
    assert!(!receiver.out_frame_received);
    let mut again = frame_of(&[0xe1]);
    assert!(!receiver.usb_frame_received(&mut again));
    assert!(!receiver.out_frame_received);
}

#[test]
fn other_packet_between_token_and_data_breaks_the_sequence() {
    let mut receiver = AudioReceiver::new();
    let mut token = frame_of(&[0xe1, 0, 0]);
    assert!(!receiver.usb_frame_received(&mut token));
    let mut other = frame_of(&[0x4b, 0, 0]);
    assert!(!receiver.usb_frame_received(&mut other));
    assert!(!receiver.out_frame_received);
    let mut data = frame_of(&[0xc3, 1, 2, 3, 4]);
    assert!(!receiver.usb_frame_received(&mut data));
    assert_eq!(data.slice(), &[0xc3, 1, 2, 3, 4]);
}

#[test]
fn only_the_first_data_packet_after_a_token_is_audio() {
    let mut receiver = AudioReceiver::new();
    let mut token = frame_of(&[0xe1, 0, 0]);
    assert!(!receiver.usb_frame_received(&mut token));
    let mut first = frame_of(&[0xc3, 1, 2, 3, 4]);
    assert!(receiver.usb_frame_received(&mut first));
    let mut second = frame_of(&[0xc3, 5, 6, 7, 8]);
    assert!(!receiver.usb_frame_received(&mut second));
    assert_eq!(second.slice(), &[0xc3, 5, 6, 7, 8]);
}

#[test]
fn data_packet_of_three_bytes_is_empty_audio() {
    let mut receiver = AudioReceiver { out_frame_received: true };
    let mut data = frame_of(&[0xc3, 0xaa, 0xbb]);
    assert!(receiver.usb_frame_received(&mut data));
    assert!(data.slice().is_empty());
}

#[test]
fn empty_payload_is_not_audio() {
    let mut receiver = AudioReceiver { out_frame_received: true };
    let mut empty = frame_of(&[]);
    assert!(!receiver.usb_frame_received(&mut empty));
    assert!(!receiver.out_frame_received);
}
