use wiinote::report::{
    Buttons, InputReport, Lights, OutputReport, ReportError, BUTTON_B, BUTTON_HOME, BUTTON_LEFT,
    BUTTON_ONE, BUTTON_PLUS, BUTTON_UP, LIGHT_ALL, LIGHT_ONE, LIGHT_THREE, LIGHT_TWO,
};

#[test]
fn light_scale() {
    assert_eq!(Lights::scale(0), Lights { bits: LIGHT_ONE });
    assert_eq!(Lights::scale(63), Lights { bits: LIGHT_ONE });
    assert_eq!(Lights::scale(127), Lights { bits: LIGHT_ONE | LIGHT_TWO });
    assert_eq!(
        Lights::scale(191),
        Lights { bits: LIGHT_ONE | LIGHT_TWO | LIGHT_THREE }
    );
    assert_eq!(Lights::scale(u8::MAX), Lights::all());
}

#[test]
fn light_scale_lower_band_edges() {
    assert_eq!(Lights::scale(64), Lights { bits: LIGHT_ONE | LIGHT_TWO });
    assert_eq!(
        Lights::scale(128),
        Lights { bits: LIGHT_ONE | LIGHT_TWO | LIGHT_THREE }
    );
    assert_eq!(Lights::scale(192), Lights { bits: LIGHT_ALL });
}

#[test]
fn button_field_up_only() {
    let buttons = Buttons::from_common(&[0x08, 0x00], 0);
    assert_eq!(buttons.bits, BUTTON_UP);
}

#[test]
fn button_field_b_only() {
    let buttons = Buttons::from_common(&[0x00, 0x04], 0);
    assert_eq!(buttons.bits, BUTTON_B);
}

#[test]
fn button_field_combinations() {
    // Bit 7 is Home, bit 8 is Left.
    let buttons = Buttons::from_common(&[0x10, 0x84], 0);
    assert_eq!(buttons.bits, BUTTON_PLUS | BUTTON_HOME | BUTTON_B);
    let buttons = Buttons::from_common(&[0x11, 0x04], 0);
    assert_eq!(buttons.bits, BUTTON_PLUS | BUTTON_LEFT | BUTTON_B);
}

#[test]
fn button_field_truncates_unnamed_bits() {
    // Bits 5, 6 and 13 to 15 name no button and are discarded.
    let buttons = Buttons::from_common(&[0xFF, 0xFF], 0);
    assert_eq!(buttons.bits, 0x1F9F);
    assert!(buttons.contains(BUTTON_UP));
    assert_eq!(Buttons::from_bits_truncate(0xE060).bits, 0);
}

#[test]
fn parse_status_frame() {
    // Status byte 0x36: lamps 1 and 2 lit, extension plugged, speaker on.
    let frame = [0xA1, 0x20, 0x08, 0x00, 0x36, 0x00, 0x00, 200];
    let (report, consumed) = InputReport::parse(&frame).unwrap();
    assert_eq!(consumed, 8);
    assert_eq!(
        report,
        InputReport::Status {
            buttons: Buttons { bits: BUTTON_UP },
            lights: Lights { bits: LIGHT_ONE | LIGHT_TWO },
            battery: 200,
            plugged_ext: true,
            speaker_enabled: true,
            ir_enabled: false,
        }
    );
    assert_eq!(report.buttons().bits, BUTTON_UP);
}

#[test]
fn parse_ack_frame() {
    let frame = [0xA1, 0x22, 0x00, 0x02, 0x11, 0x03];
    let (report, consumed) = InputReport::parse(&frame).unwrap();
    assert_eq!(consumed, 6);
    assert_eq!(
        report,
        InputReport::Ack { buttons: Buttons { bits: BUTTON_ONE }, response_to: 0x11, code: 3 }
    );
}

#[test]
fn parse_drm_frames_of_every_tag() {
    let lengths: [(u8, usize); 11] = [
        (0x30, 4),
        (0x31, 7),
        (0x32, 12),
        (0x33, 19),
        (0x34, 23),
        (0x35, 23),
        (0x36, 23),
        (0x37, 23),
        (0x3D, 23),
        (0x3E, 23),
        (0x3F, 23),
    ];
    for (tag, len) in lengths {
        let mut frame = vec![0xA1, tag, 0x08, 0x00];
        frame.resize(len, 0x55);
        let (report, consumed) = InputReport::parse(&frame).unwrap();
        assert_eq!(consumed, len);
        let expected = if tag == 0x3D {
            // Tag 0x3D carries no button field.
            Buttons { bits: 0 }
        } else {
            Buttons { bits: BUTTON_UP }
        };
        assert_eq!(report, InputReport::Drm { buttons: expected, mode: tag });
    }
}

#[test]
fn parse_unknown_report_type() {
    let frame = [0xA1, 0x99, 0x00];
    assert_eq!(
        InputReport::parse(&frame),
        Err(ReportError::UnknownReportType(0x99))
    );
}

#[test]
fn parse_invalid_header() {
    let frame = [0xA5, 0x20, 0x08, 0x00, 0x36, 0x00, 0x00, 200];
    assert_eq!(InputReport::parse(&frame), Err(ReportError::InvalidHeader(0xA5)));
}

#[test]
fn parse_incomplete_frames() {
    // Fewer than three bytes never reach the marker check.
    assert_eq!(InputReport::parse(&[]), Err(ReportError::Incomplete));
    assert_eq!(InputReport::parse(&[0xA1]), Err(ReportError::Incomplete));
    assert_eq!(InputReport::parse(&[0xA5, 0x20]), Err(ReportError::Incomplete));
    // A status frame cut short at any point asks for more bytes.
    let frame = [0xA1, 0x20, 0x08, 0x00, 0x36, 0x00, 0x00, 200];
    for cut in 3..frame.len() {
        assert_eq!(InputReport::parse(&frame[..cut]), Err(ReportError::Incomplete));
    }
    // So does a periodic frame.
    assert_eq!(InputReport::parse(&[0xA1, 0x31, 0x00, 0x00]), Err(ReportError::Incomplete));
}

#[test]
fn parse_ignores_bytes_after_the_frame() {
    let mut bytes = vec![0xA1, 0x22, 0x00, 0x02, 0x11, 0x00];
    bytes.extend_from_slice(&[0xA1, 0x30, 0x00, 0x00]);
    let (report, consumed) = InputReport::parse(&bytes).unwrap();
    assert_eq!(consumed, 6);
    assert_eq!(
        report,
        InputReport::Ack { buttons: Buttons { bits: BUTTON_ONE }, response_to: 0x11, code: 0 }
    );
}

#[test]
fn encode_set_lights() {
    let report = OutputReport::SetLights(Lights { bits: LIGHT_ALL });
    assert_eq!(report.encode(), vec![0xA2, 0x11, 0xF0]);
}

#[test]
fn encode_set_drm() {
    let report = OutputReport::SetDrm { lights: Lights { bits: 0x05 }, mode: 0x30 };
    assert_eq!(report.encode(), vec![0xA2, 0x12, 0x50, 0x30]);
}

#[test]
fn encode_request_status() {
    let report = OutputReport::RequestStatus { lights: Lights { bits: 0x00 } };
    assert_eq!(report.encode(), vec![0xA2, 0x15, 0x00]);
}
