use wiinote::connection::{RecvBuffer, SessionError, CONTROL_PSM, DATA_PSM};
use wiinote::report::{Buttons, InputReport, Lights, ReportError, BUTTON_UP, LIGHT_ONE};

fn status_frame() -> Vec<u8> {
    vec![0xA1, 0x20, 0x08, 0x00, 0x12, 0x00, 0x00, 100]
}

fn parsed_status() -> InputReport {
    InputReport::Status {
        buttons: Buttons { bits: BUTTON_UP },
        lights: Lights { bits: LIGHT_ONE },
        battery: 100,
        plugged_ext: true,
        speaker_enabled: false,
        ir_enabled: false,
    }
}

#[test]
fn channel_identifiers() {
    assert_eq!(CONTROL_PSM, 0x11);
    assert_eq!(DATA_PSM, 0x13);
}

#[test]
fn whole_frame_parses_and_is_consumed() {
    let mut buffer = RecvBuffer::new();
    buffer.append(&status_frame());
    assert_eq!(buffer.try_parse(), Ok(Some(parsed_status())));
    assert_eq!(buffer.len(), 0);
}

#[test]
fn streaming_split_at_every_position_gives_the_same_report() {
    let frame = status_frame();
    for cut in 0..=frame.len() {
        let mut buffer = RecvBuffer::new();
        buffer.append(&frame[..cut]);
        if cut < frame.len() {
            // Not a whole frame yet: the read loop waits for more bytes.
            assert_eq!(buffer.try_parse(), Ok(None));
            assert_eq!(buffer.len(), cut);
            buffer.append(&frame[cut..]);
        }
        assert_eq!(buffer.try_parse(), Ok(Some(parsed_status())));
        assert_eq!(buffer.len(), 0);
    }
}

#[test]
fn streaming_byte_by_byte_gives_the_same_report() {
    let frame = status_frame();
    let mut buffer = RecvBuffer::new();
    for (i, byte) in frame.iter().enumerate() {
        buffer.append(&[*byte]);
        if i + 1 < frame.len() {
            assert_eq!(buffer.try_parse(), Ok(None));
        }
    }
    assert_eq!(buffer.try_parse(), Ok(Some(parsed_status())));
}

#[test]
fn trailing_bytes_stay_for_the_next_parse() {
    let mut bytes = status_frame();
    bytes.extend_from_slice(&[0xA1, 0x30, 0x00, 0x02]);
    let mut buffer = RecvBuffer::new();
    buffer.append(&bytes);
    assert_eq!(buffer.try_parse(), Ok(Some(parsed_status())));
    assert_eq!(buffer.len(), 4);
    assert_eq!(
        buffer.try_parse(),
        Ok(Some(InputReport::Drm { buttons: Buttons { bits: 0x0002 }, mode: 0x30 }))
    );
    assert_eq!(buffer.len(), 0);
}

#[test]
fn unknown_report_type_is_fatal_to_the_read_loop() {
    let mut buffer = RecvBuffer::new();
    buffer.append(&[0xA1, 0x99, 0x00]);
    assert_eq!(buffer.try_parse(), Err(ReportError::UnknownReportType(0x99)));
    // The buffer is left as it was: the connection is being torn down.
    assert_eq!(buffer.len(), 3);
}

#[test]
fn invalid_header_is_fatal_to_the_read_loop() {
    let mut buffer = RecvBuffer::new();
    buffer.append(&[0xA5, 0x20, 0x00]);
    assert_eq!(buffer.try_parse(), Err(ReportError::InvalidHeader(0xA5)));
}

#[test]
fn clean_close_on_empty_buffer() {
    let buffer = RecvBuffer::new();
    assert_eq!(buffer.on_stream_closed(), None);
}

#[test]
fn close_with_truncated_frame_is_a_reset() {
    let mut buffer = RecvBuffer::new();
    buffer.append(&[0xA1, 0x20]);
    assert_eq!(buffer.on_stream_closed(), Some(SessionError::ConnectionReset));
}

#[test]
fn only_resets_are_transient() {
    assert!(SessionError::ConnectionReset.is_transient());
    assert!(!SessionError::Codec(ReportError::InvalidHeader(0xA5)).is_transient());
    assert!(!SessionError::Codec(ReportError::UnknownReportType(0x99)).is_transient());
}
