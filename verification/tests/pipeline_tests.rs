use usb_audio_sniffer::capture::{
    route, CaptureError, CaptureFault, CaptureLoop, CaptureSide, Delivery, Progress, Routed,
};
use usb_audio_sniffer::decoder::{DecodeError, Event};
use usb_audio_sniffer::extractor::AudioReceiver;
use usb_audio_sniffer::frame::AudioFrame;
use usb_audio_sniffer::header::{CommonHeader, DataHeader};
use usb_audio_sniffer::pool::{pipeline, pipeline_with_capacity, POOL_SIZE};
use usb_audio_sniffer::queue::Starved;
use usb_audio_sniffer::render::{copy_frames, Chunk, Copied, RenderError};

const TOKEN: [u8; 3] = [0xe1, 0x00, 0x10];

fn frame_of(payload: &[u8]) -> AudioFrame {
    let mut frame = AudioFrame::new();
    frame.fill(payload);
    frame
}

fn packet(audio: &[u8]) -> Vec<u8> {
    let mut bytes = vec![0xc3];
    bytes.extend_from_slice(audio);
    bytes.extend_from_slice(&[0xaa, 0xaa]);
    bytes
}

fn emit(capture: &mut CaptureSide, audio: &[u8]) -> Result<Delivery, CaptureError> {
    assert_eq!(capture.deliver(&TOKEN), Ok(Delivery::Recycled));
    capture.deliver(&packet(audio))
}

#[test]
fn pool_holds_sixteen_buffers() {
    assert_eq!(POOL_SIZE, 16);
}

#[test]
fn pipeline_starts_with_every_buffer_free() {
    let (capture, render) = pipeline(4).unwrap();
    assert_eq!(capture.free_buffers(), 16);
    assert_eq!(render.ready_buffers(), 0);
    assert_eq!(render.stride(), 4);
}

#[test]
fn route_without_a_buffer_drops_the_payload() {
    let mut receiver = AudioReceiver { out_frame_received: true };
    let routed = route(&mut receiver, Err(Starved::Empty), &packet(&[1, 2, 3, 4]));
    assert!(matches!(routed, Routed::Dropped));
    assert!(receiver.out_frame_received);
    let routed = route(&mut receiver, Err(Starved::Disconnected), &TOKEN);
    assert!(matches!(routed, Routed::Dropped));
    assert!(receiver.out_frame_received);
}

#[test]
fn route_sends_audio_to_the_ready_queue() {
    let mut receiver = AudioReceiver { out_frame_received: true };
    let stale = Box::new(frame_of(&[9, 9, 9, 9, 9, 9, 9, 9, 9]));
    match route(&mut receiver, Ok(stale), &packet(&[1, 2, 3, 4])) {
        Routed::Emit(frame) => assert_eq!(frame.slice(), &[1, 2, 3, 4]),
        _ => panic!("audio was not emitted"),
    }
    assert!(!receiver.out_frame_received);
}

#[test]
fn route_sends_everything_else_to_the_free_queue() {
    let mut receiver = AudioReceiver::new();
    match route(&mut receiver, Ok(Box::new(AudioFrame::new())), &TOKEN) {
        Routed::Recycle(frame) => assert_eq!(frame.slice(), &TOKEN),
        _ => panic!("the token was not recycled"),
    }
    assert!(receiver.out_frame_received);

    let mut receiver = AudioReceiver::new();
    let payload = packet(&[1, 2]);
    match route(&mut receiver, Ok(Box::new(AudioFrame::new())), &payload) {
        Routed::Recycle(frame) => assert_eq!(frame.slice(), payload.as_slice()),
        _ => panic!("the packet was not recycled"),
    }
    assert!(!receiver.out_frame_received);
}

#[test]
fn out_token_is_recycled() {
    let (mut capture, render) = pipeline(4).unwrap();
    assert_eq!(capture.deliver(&TOKEN), Ok(Delivery::Recycled));
    assert_eq!(capture.free_buffers(), 16);
    assert_eq!(render.ready_buffers(), 0);
}

#[test]
fn audio_is_emitted() {
    let (mut capture, render) = pipeline(4).unwrap();
    assert_eq!(emit(&mut capture, &[1, 2, 3, 4]), Ok(Delivery::Emitted(4)));
    assert_eq!(capture.free_buffers(), 15);
    assert_eq!(render.ready_buffers(), 1);
}

#[test]
fn data_packet_without_token_is_recycled() {
    let (mut capture, render) = pipeline(4).unwrap();
    assert_eq!(capture.deliver(&packet(&[1, 2, 3, 4])), Ok(Delivery::Recycled));
    assert_eq!(capture.free_buffers(), 16);
    assert_eq!(render.ready_buffers(), 0);
}

#[test]
fn empty_audio_is_still_emitted() {
    let (mut capture, render) = pipeline(4).unwrap();
    assert_eq!(emit(&mut capture, &[]), Ok(Delivery::Emitted(0)));
    assert_eq!(render.ready_buffers(), 1);
}

#[test]
fn payload_is_dropped_when_no_buffer_is_free() {
    let (mut capture, render) = pipeline(4).unwrap();
    for _ in 0..16 {
        assert_eq!(emit(&mut capture, &[1, 2, 3, 4]), Ok(Delivery::Emitted(4)));
    }
    assert_eq!(capture.free_buffers(), 0);
    assert_eq!(render.ready_buffers(), 16);
    assert_eq!(capture.deliver(&TOKEN), Ok(Delivery::Dropped));
    assert_eq!(capture.deliver(&packet(&[5, 6, 7, 8])), Ok(Delivery::Dropped));
    assert_eq!(capture.free_buffers(), 0);
    assert_eq!(render.ready_buffers(), 16);
}

#[test]
fn dropped_payload_does_not_reach_the_extractor() {
    let (mut capture, render) = pipeline(4).unwrap();
    for _ in 0..15 {
        assert_eq!(emit(&mut capture, &[1, 2, 3, 4]), Ok(Delivery::Emitted(4)));
    }
    assert_eq!(capture.deliver(&TOKEN), Ok(Delivery::Recycled));
    assert_eq!(capture.deliver(&packet(&[1, 2, 3, 4])), Ok(Delivery::Emitted(4)));
    // no buffer is left: this token is lost
    assert_eq!(capture.deliver(&TOKEN), Ok(Delivery::Dropped));
    let mut dst = vec![0u8; 2000];
    assert_eq!(render.render(&mut dst).unwrap().size, 64);
    // so the packet behind it is no audio
    assert_eq!(capture.deliver(&packet(&[5, 6, 7, 8])), Ok(Delivery::Recycled));
}

#[test]
fn buffers_add_up_to_sixteen_after_every_operation() {
    let (mut capture, render) = pipeline(2).unwrap();
    let mut dst = vec![0u8; 1500];
    for round in 0..200usize {
        if round % 3 == 0 {
            let _ = capture.deliver(&TOKEN).unwrap();
        } else if round % 3 == 1 {
            let _ = capture.deliver(&packet(&[round as u8; 6])).unwrap();
        } else if round % 7 == 2 {
            let _ = render.render(&mut dst).unwrap();
        }
        assert_eq!(capture.free_buffers() + render.ready_buffers(), 16);
    }
}

#[test]
fn full_ready_queue_sends_the_buffer_back() {
    let (mut capture, render) = pipeline_with_capacity(2, 1).unwrap();
    assert_eq!(capture.free_buffers(), 16);
    assert_eq!(emit(&mut capture, &[1, 2]), Ok(Delivery::Emitted(2)));
    assert_eq!(capture.free_buffers(), 15);
    assert_eq!(emit(&mut capture, &[3, 4]), Ok(Delivery::Rejected));
    assert_eq!(capture.free_buffers(), 15);
    assert_eq!(render.ready_buffers(), 1);
    let mut dst = vec![0u8; 1300];
    assert_eq!(render.render(&mut dst), Ok(Chunk { offset: 0, stride: 2, size: 2 }));
    assert_eq!(&dst[..3], &[1, 2, 0]);
    assert_eq!(capture.free_buffers(), 16);
    assert_eq!(emit(&mut capture, &[5, 6]), Ok(Delivery::Emitted(2)));
}

#[test]
fn ready_capacity_above_the_pool_size_takes_every_buffer() {
    let (mut capture, render) = pipeline_with_capacity(2, usize::MAX).unwrap();
    for _ in 0..16 {
        assert_eq!(emit(&mut capture, &[1, 2]), Ok(Delivery::Emitted(2)));
    }
    assert_eq!(render.ready_buffers(), 16);
    assert_eq!(capture.deliver(&TOKEN), Ok(Delivery::Dropped));
}

#[test]
fn ready_queue_without_room_rejects_all_audio() {
    let (mut capture, render) = pipeline_with_capacity(2, 0).unwrap();
    assert_eq!(emit(&mut capture, &[1, 2]), Ok(Delivery::Rejected));
    assert_eq!(capture.free_buffers(), 16);
    assert_eq!(render.ready_buffers(), 0);
}

#[test]
fn capture_fails_when_the_ready_queue_is_gone() {
    let (mut capture, render) = pipeline(4).unwrap();
    drop(render);
    assert_eq!(capture.deliver(&TOKEN), Ok(Delivery::Recycled));
    assert_eq!(capture.deliver(&packet(&[1, 2, 3, 4])), Err(CaptureError::Disconnected));
}

#[test]
fn copy_into_a_larger_destination_takes_the_whole_frame() {
    let stride: usize = 4;
    let frame = frame_of(&[1, 2, 3, 4, 5, 6, 7, 8]);
    let mut dst = vec![0xeeu8; 3 * stride];
    let out = copy_frames(&mut dst, 0, &frame, stride);
    assert_eq!(out, Copied { frames: 2, bytes: 2 * stride, partial_drop: false });
    assert_eq!(dst, vec![1, 2, 3, 4, 5, 6, 7, 8, 0xee, 0xee, 0xee, 0xee]);
}

#[test]
fn copy_into_a_smaller_destination_drops_the_rest() {
    let stride: usize = 4;
    let frame = frame_of(&[1, 2, 3, 4, 5, 6, 7, 8]);
    let mut dst = vec![0xeeu8; stride];
    let out = copy_frames(&mut dst, 0, &frame, stride);
    assert_eq!(out, Copied { frames: 1, bytes: stride, partial_drop: true });
    assert_eq!(dst, vec![1, 2, 3, 4]);
}

#[test]
fn copy_leaves_an_incomplete_sample_frame_behind() {
    let frame = frame_of(&[1, 2, 3, 4, 5, 6, 7]);
    let mut dst = vec![0u8; 16];
    let out = copy_frames(&mut dst, 0, &frame, 3);
    assert_eq!(out, Copied { frames: 2, bytes: 6, partial_drop: false });
    assert_eq!(&dst[..7], &[1, 2, 3, 4, 5, 6, 0]);
}

#[test]
fn copy_starts_at_the_offset() {
    let frame = frame_of(&[1, 2, 3, 4]);
    let mut dst = vec![0xeeu8; 10];
    let out = copy_frames(&mut dst, 5, &frame, 2);
    assert_eq!(out, Copied { frames: 2, bytes: 4, partial_drop: false });
    assert_eq!(dst, vec![0xee, 0xee, 0xee, 0xee, 0xee, 1, 2, 3, 4, 0xee]);
}

#[test]
fn copy_into_no_room_copies_nothing() {
    let frame = frame_of(&[1, 2, 3, 4]);
    let mut dst = vec![0xeeu8; 4];
    let out = copy_frames(&mut dst, 4, &frame, 2);
    assert_eq!(out, Copied { frames: 0, bytes: 0, partial_drop: true });
    assert_eq!(dst, vec![0xee; 4]);
}

#[test]
fn copy_of_an_empty_frame_copies_nothing() {
    let frame = AudioFrame::new();
    let mut dst = vec![0xeeu8; 8];
    let out = copy_frames(&mut dst, 0, &frame, 4);
    assert_eq!(out, Copied { frames: 0, bytes: 0, partial_drop: false });
    assert_eq!(dst, vec![0xee; 8]);
}

#[test]
fn render_without_ready_buffers_reports_nothing() {
    let (_capture, render) = pipeline(4).unwrap();
    let mut dst = vec![0xeeu8; 4096];
    assert_eq!(render.render(&mut dst), Ok(Chunk { offset: 0, stride: 4, size: 0 }));
    assert_eq!(dst, vec![0xee; 4096]);
    assert_eq!(render.idle(), Chunk { offset: 0, stride: 4, size: 0 });
}

#[test]
fn render_copies_a_frame_and_recycles_its_buffer() {
    let stride: usize = 4;
    let (mut capture, render) = pipeline(stride).unwrap();
    assert_eq!(emit(&mut capture, &[1, 2, 3, 4, 5, 6, 7, 8]), Ok(Delivery::Emitted(8)));
    assert_eq!(capture.free_buffers(), 15);
    let mut dst = vec![0xeeu8; 2000];
    assert_eq!(render.render(&mut dst), Ok(Chunk { offset: 0, stride, size: 2 * stride }));
    assert_eq!(&dst[..10], &[1, 2, 3, 4, 5, 6, 7, 8, 0xee, 0xee]);
    assert_eq!(capture.free_buffers(), 16);
    assert_eq!(render.ready_buffers(), 0);
}

#[test]
fn render_keeps_capture_order() {
    let (mut capture, render) = pipeline(2).unwrap();
    assert_eq!(emit(&mut capture, &[1, 2, 3, 4]), Ok(Delivery::Emitted(4)));
    assert_eq!(emit(&mut capture, &[5, 6]), Ok(Delivery::Emitted(2)));
    assert_eq!(emit(&mut capture, &[7, 8, 9]), Ok(Delivery::Emitted(3)));
    let mut dst = vec![0u8; 1500];
    assert_eq!(render.render(&mut dst), Ok(Chunk { offset: 0, stride: 2, size: 8 }));
    assert_eq!(&dst[..9], &[1, 2, 3, 4, 5, 6, 7, 8, 0]);
    assert_eq!(capture.free_buffers(), 16);
}

#[test]
fn render_does_not_touch_a_destination_of_1280_bytes() {
    let (mut capture, render) = pipeline(4).unwrap();
    assert_eq!(emit(&mut capture, &[1, 2, 3, 4]), Ok(Delivery::Emitted(4)));
    let mut dst = vec![0xeeu8; 1280];
    assert_eq!(render.render(&mut dst), Ok(Chunk { offset: 0, stride: 4, size: 0 }));
    assert_eq!(dst, vec![0xee; 1280]);
    assert_eq!(render.ready_buffers(), 1);
}

#[test]
fn render_stops_when_1280_bytes_or_fewer_are_left() {
    let (mut capture, render) = pipeline(1).unwrap();
    for i in 0..3u8 {
        assert_eq!(emit(&mut capture, &[i; 10]), Ok(Delivery::Emitted(10)));
    }
    // room for one frame: after it, exactly 1280 bytes are left
    let mut dst = vec![0xeeu8; 1290];
    assert_eq!(render.render(&mut dst), Ok(Chunk { offset: 0, stride: 1, size: 10 }));
    assert_eq!(&dst[..11], &[0, 0, 0, 0, 0, 0, 0, 0, 0, 0, 0xee]);
    assert_eq!(render.ready_buffers(), 2);
    assert_eq!(capture.free_buffers(), 14);
}

#[test]
fn render_fails_when_the_free_queue_is_gone() {
    let (mut capture, render) = pipeline(4).unwrap();
    assert_eq!(emit(&mut capture, &[1, 2, 3, 4]), Ok(Delivery::Emitted(4)));
    drop(capture);
    let mut dst = vec![0u8; 2000];
    assert_eq!(render.render(&mut dst), Err(RenderError::Disconnected));
}

#[test]
fn capture_loop_reads_headers_and_delivers_payloads() {
    let (side, render) = pipeline(4).unwrap();
    let mut capture = CaptureLoop::new(side);
    let mut stream: Vec<u8> = Vec::new();
    stream.extend_from_slice(&[0x80, 0x00, 0x00]);
    stream.extend_from_slice(&[0x00, 0x0d, 0x00, 0x00]);
    stream.extend_from_slice(&[0xe1, 0xe1, 0xe1, 0xe1, 0xe1, 0xe1]);
    stream.extend_from_slice(&[0xc0, 0x00, 0x00]);
    stream.extend_from_slice(&[0x00, 0x0e, 0x00, 0x00]);
    stream.extend_from_slice(&[0xc3, 1, 2, 3, 4, 0xaa, 0xaa]);

    let mut emitted: usize = 0;
    let mut position: usize = 0;
    while position < stream.len() {
        let wanted = capture.wanted();
        let progress = capture.feed(&stream[position..position + wanted]).unwrap();
        if let Progress::Payload(Delivery::Emitted(n)) = progress {
            assert_eq!(n, 4);
            emitted += 1;
        }
        position += wanted;
    }
    assert_eq!(position, stream.len());
    assert_eq!(emitted, 1);
    assert_eq!(render.ready_buffers(), 1);
    assert_eq!(capture.free_buffers(), 15);

    let mut dst = vec![0u8; 2000];
    assert_eq!(render.render(&mut dst), Ok(Chunk { offset: 0, stride: 4, size: 4 }));
    assert_eq!(&dst[..4], &[1, 2, 3, 4]);
    assert_eq!(capture.free_buffers(), 16);
}

#[test]
fn capture_loop_reports_each_read() {
    let (side, _render) = pipeline(4).unwrap();
    let mut capture = CaptureLoop::new(side);
    let common = CommonHeader {
        is_data: true,
        toggle: false,
        non_zero: false,
        timestamp_overflow: false,
        timestamp: 77,
    };
    let data = DataHeader {
        reserved: 0,
        data_error: false,
        crc_error: false,
        overflow: false,
        size: 10,
        duration: 5,
    };
    assert_eq!(capture.wanted(), 3);
    assert_eq!(capture.feed(&common.encode()), Ok(Progress::Header(Event::Common(common))));
    assert_eq!(capture.wanted(), 4);
    assert_eq!(capture.feed(&data.encode()), Ok(Progress::Header(Event::Data(data))));
    assert_eq!(capture.wanted(), 3);
    assert_eq!(capture.feed(&TOKEN), Ok(Progress::Payload(Delivery::Recycled)));
    assert_eq!(capture.wanted(), 3);
}

#[test]
fn capture_loop_stops_on_a_corrupt_stream() {
    let (side, _render) = pipeline(4).unwrap();
    let mut capture = CaptureLoop::new(side);
    assert_eq!(
        capture.feed(&[0x40, 0, 0]),
        Err(CaptureFault::Decode(DecodeError::ToggleMismatch { got: true, expected: false }))
    );
    assert_eq!(capture.feed(&[0x20, 0, 0]), Err(CaptureFault::Decode(DecodeError::NonZeroFlag)));
    assert!(capture.feed(&[0x80, 0, 0]).is_ok());
    assert_eq!(
        capture.feed(&[0x07, 0xff, 0, 0]),
        Err(CaptureFault::Decode(DecodeError::BadFrameSize(2047)))
    );
}

#[test]
fn capture_loop_fails_when_the_pipeline_is_cut() {
    let (side, render) = pipeline(4).unwrap();
    let mut capture = CaptureLoop::new(side);
    drop(render);
    let stream: [&[u8]; 6] = [
        &[0x80, 0, 0],
        &[0x00, 0x0a, 0, 0],
        &TOKEN,
        &[0xc0, 0, 0],
        &[0x00, 0x0e, 0, 0],
        &[0xc3, 1, 2, 3, 4, 0xaa, 0xaa],
    ];
    for read in &stream[..5] {
        assert!(capture.feed(read).is_ok());
    }
    assert_eq!(capture.feed(stream[5]), Err(CaptureFault::Pool(CaptureError::Disconnected)));
}
