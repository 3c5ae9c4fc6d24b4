use usb_audio_sniffer::decoder::{
    accept_common, data_payload_len, DecodeError, Event, StreamDecoder, MAX_PAYLOAD_LEN,
    MIN_FRAME_SIZE,
};
use usb_audio_sniffer::header::{CommonHeader, DataHeader, StatusHeader};

fn common(is_data: bool, toggle: bool) -> CommonHeader {
    CommonHeader { is_data, toggle, non_zero: false, timestamp_overflow: false, timestamp: 0 }
}

fn data(size: u16) -> DataHeader {
    DataHeader {
        reserved: 0,
        data_error: false,
        crc_error: false,
        overflow: false,
        size,
        duration: 0,
    }
}

#[test]
fn frame_size_bounds() {
    assert_eq!(MIN_FRAME_SIZE, 7);
    assert_eq!(MAX_PAYLOAD_LEN, 1273);
}

#[test]
fn size_seven_is_accepted_with_no_payload() {
    assert_eq!(data_payload_len(&data(7)), Ok(0));
}

#[test]
fn size_1280_is_accepted_with_the_longest_payload() {
    assert_eq!(data_payload_len(&data(1280)), Ok(1273));
}

#[test]
fn size_below_seven_is_refused() {
    for size in 0..7u16 {
        assert_eq!(data_payload_len(&data(size)), Err(DecodeError::BadFrameSize(size as usize)));
    }
}

#[test]
fn size_above_1280_is_refused() {
    for size in 1281..=2047u16 {
        assert_eq!(data_payload_len(&data(size)), Err(DecodeError::BadFrameSize(size as usize)));
    }
}

#[test]
fn every_size_in_bounds_is_accepted() {
    for size in 7..=1280u16 {
        assert_eq!(data_payload_len(&data(size)), Ok(size as usize - 7));
    }
}

#[test]
fn common_header_with_expected_toggle_passes() {
    assert_eq!(accept_common(false, &common(true, false)), Ok(()));
    assert_eq!(accept_common(true, &common(false, true)), Ok(()));
}

#[test]
fn common_header_with_wrong_toggle_fails() {
    assert_eq!(
        accept_common(false, &common(true, true)),
        Err(DecodeError::ToggleMismatch { got: true, expected: false })
    );
    assert_eq!(
        accept_common(true, &common(true, false)),
        Err(DecodeError::ToggleMismatch { got: false, expected: true })
    );
}

#[test]
fn non_zero_flag_fails_before_the_toggle_is_looked_at() {
    let mut header = common(false, true);
    header.non_zero = true;
    assert_eq!(accept_common(false, &header), Err(DecodeError::NonZeroFlag));
    assert_eq!(accept_common(true, &header), Err(DecodeError::NonZeroFlag));
}

#[test]
fn decoder_starts_with_a_common_header() {
    let decoder = StreamDecoder::new();
    assert_eq!(decoder.wanted(), 3);
}

#[test]
fn status_event_takes_two_reads() {
    let mut decoder = StreamDecoder::new();
    let header = common(false, false);
    assert_eq!(decoder.feed(&header.encode()), Ok(Event::Common(header)));
    assert_eq!(decoder.wanted(), 1);
    assert_eq!(
        decoder.feed(&[0xa6]),
        Ok(Event::Status(StatusHeader { speed: 2, trigger: true, vbus: false, ls: 6 }))
    );
    assert_eq!(decoder.wanted(), 3);
}

#[test]
fn data_event_takes_three_reads() {
    let mut decoder = StreamDecoder::new();
    let header = common(true, false);
    assert_eq!(decoder.feed(&header.encode()), Ok(Event::Common(header)));
    assert_eq!(decoder.wanted(), 4);
    assert_eq!(decoder.feed(&data(10).encode()), Ok(Event::Data(data(10))));
    assert_eq!(decoder.wanted(), 3);
    assert_eq!(decoder.feed(&[1, 2, 3]), Ok(Event::Payload));
    assert_eq!(decoder.wanted(), 3);
}

#[test]
fn data_event_without_payload_takes_two_reads() {
    let mut decoder = StreamDecoder::new();
    assert!(decoder.feed(&common(true, false).encode()).is_ok());
    assert_eq!(decoder.feed(&data(7).encode()), Ok(Event::Data(data(7))));
    assert_eq!(decoder.wanted(), 3);
    assert_eq!(decoder.feed(&common(false, true).encode()), Ok(Event::Common(common(false, true))));
}

#[test]
fn longest_payload_is_wanted_in_one_read() {
    let mut decoder = StreamDecoder::new();
    assert!(decoder.feed(&common(true, false).encode()).is_ok());
    assert!(decoder.feed(&data(1280).encode()).is_ok());
    assert_eq!(decoder.wanted(), 1273);
}

#[test]
fn alternating_toggles_are_accepted() {
    let mut decoder = StreamDecoder::new();
    for i in 0..100usize {
        let header = common(false, i % 2 == 1);
        assert_eq!(decoder.feed(&header.encode()), Ok(Event::Common(header)));
        assert!(decoder.feed(&[0x00]).is_ok());
    }
}

#[test]
fn flipped_toggle_fails_at_that_header_and_not_before() {
    for flipped in 0..20usize {
        let mut decoder = StreamDecoder::new();
        for i in 0..20usize {
            let sound = i % 2 == 1;
            let toggle = if i == flipped { !sound } else { sound };
            let result = decoder.feed(&common(false, toggle).encode());
            if i == flipped {
                assert_eq!(
                    result,
                    Err(DecodeError::ToggleMismatch { got: toggle, expected: sound })
                );
                break;
            }
            assert!(result.is_ok());
            assert!(decoder.feed(&[0x00]).is_ok());
        }
    }
}

#[test]
fn first_header_with_toggle_set_fails() {
    let mut decoder = StreamDecoder::new();
    assert_eq!(
        decoder.feed(&[0x40, 0, 0]),
        Err(DecodeError::ToggleMismatch { got: true, expected: false })
    );
}

#[test]
fn non_zero_flag_ends_the_stream() {
    let mut decoder = StreamDecoder::new();
    assert_eq!(decoder.feed(&[0x20, 0, 0]), Err(DecodeError::NonZeroFlag));
}

#[test]
fn bad_frame_size_ends_the_stream() {
    let mut decoder = StreamDecoder::new();
    assert!(decoder.feed(&common(true, false).encode()).is_ok());
    assert_eq!(decoder.feed(&data(6).encode()), Err(DecodeError::BadFrameSize(6)));

    let mut decoder = StreamDecoder::new();
    assert!(decoder.feed(&common(true, false).encode()).is_ok());
    assert_eq!(decoder.feed(&data(1281).encode()), Err(DecodeError::BadFrameSize(1281)));
}

#[test]
fn decoder_stays_put_after_an_error() {
    let mut decoder = StreamDecoder::new();
    assert!(decoder.feed(&[0x40, 0, 0]).is_err());
    assert_eq!(decoder.wanted(), 3);
    assert_eq!(decoder.feed(&[0x00, 0, 0]), Ok(Event::Common(common(false, false))));
}

#[test]
fn toggle_flips_after_data_events_too() {
    let mut decoder = StreamDecoder::new();
    assert!(decoder.feed(&common(true, false).encode()).is_ok());
    assert!(decoder.feed(&data(9).encode()).is_ok());
    assert!(decoder.feed(&[0, 0]).is_ok());
    assert_eq!(
        decoder.feed(&common(true, false).encode()),
        Err(DecodeError::ToggleMismatch { got: false, expected: true })
    );
}
