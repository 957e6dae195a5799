//! The report codec: pure functions that decode inbound frames from raw
//! bytes and encode outbound command frames, together with the `Buttons`
//! and `Lights` bit-set types shared by the codec and the controller.

use vstd::prelude::*;

verus! {

/// Marker byte that opens every device-to-host frame.
pub const INPUT_TRANS_HEADER: u8 = 0xA1;

/// Marker byte that opens every host-to-device frame.
pub const OUTPUT_TRANS_HEADER: u8 = 0xA2;

/// Outcome of a failed decode attempt.
#[derive(Debug, Clone, Copy, PartialEq, Eq, Structural)]
pub enum ReportError {
    /// The buffer holds fewer bytes than the frame requires. Not a true
    /// failure: the caller buffers more bytes and retries the whole parse.
    Incomplete,
    /// The leading marker byte is not the inbound marker: the stream is
    /// desynchronized, fatal to the connection.
    InvalidHeader(u8),
    /// The tag byte selects no known report layout: fatal as well.
    UnknownReportType(u8),
}

/// Bit positions of the named buttons within the 16-bit button field.
/// The power button is never reported.
pub const BUTTON_TWO: u16 = 0x0001;

pub const BUTTON_ONE: u16 = 0x0002;

pub const BUTTON_B: u16 = 0x0004;

pub const BUTTON_A: u16 = 0x0008;

pub const BUTTON_MINUS: u16 = 0x0010;

pub const BUTTON_HOME: u16 = 0x0080;

pub const BUTTON_LEFT: u16 = 0x0100;

pub const BUTTON_RIGHT: u16 = 0x0200;

pub const BUTTON_DOWN: u16 = 0x0400;

pub const BUTTON_UP: u16 = 0x0800;

pub const BUTTON_PLUS: u16 = 0x1000;

/// Union of all eleven button bits.
pub const BUTTON_MASK: u16 = 0x1F9F;

/// The set of currently pressed buttons, an 11-bit set over named flags.
#[derive(Debug, Clone, Copy, PartialEq, Eq, Structural)]
pub struct Buttons {
    pub bits: u16,
}

/// The button field decoded from its two big-endian bytes, with bits
/// outside the eleven named flags discarded.
pub open spec fn spec_button_field(hi: u8, lo: u8) -> Buttons {
    Buttons { bits: (((hi as u16) << 8) | (lo as u16)) & BUTTON_MASK }
}

impl Buttons {
    /// The empty button set.
    pub fn empty() -> (r: Buttons)
        ensures
            r.bits == 0,
    {
        Buttons { bits: 0 }
    }

    /// Keeps the named flags of `bits` and discards the rest.
    pub fn from_bits_truncate(bits: u16) -> (r: Buttons)
        ensures
            r.bits == bits & BUTTON_MASK,
    {
        Buttons { bits: bits & BUTTON_MASK }
    }

    /// Decodes the 2-byte big-endian button field that every report carries,
    /// read at offset `pos` of `src`.
    pub fn from_common(src: &[u8], pos: usize) -> (r: Buttons)
        requires
            pos + 2 <= src@.len(),
        ensures
            r == spec_button_field(src@[pos as int], src@[pos + 1]),
    {
        let hi: u8 = src[pos];
        let lo: u8 = src[pos + 1];
        Buttons { bits: (((hi as u16) << 8) | (lo as u16)) & BUTTON_MASK }
    }

    /// True if every flag of `mask` is pressed.
    pub fn contains(&self, mask: u16) -> (r: bool)
        ensures
            r == (self.bits & mask == mask),
    {
        self.bits & mask == mask
    }

    /// The buttons held in this set but not in `prev`: the ones an input
    /// sink reports as newly pressed.
    pub fn pressed_since(&self, prev: Buttons) -> (r: Buttons)
        ensures
            r.bits == self.bits & !prev.bits,
    {
        Buttons { bits: self.bits & !prev.bits }
    }

    /// The buttons held in `prev` but no longer in this set: the ones an
    /// input sink reports as released.
    pub fn released_since(&self, prev: Buttons) -> (r: Buttons)
        ensures
            r.bits == prev.bits & !self.bits,
    {
        Buttons { bits: prev.bits & !self.bits }
    }
}

/// Bit positions of the four indicator lamps.
pub const LIGHT_ONE: u8 = 0x01;

pub const LIGHT_TWO: u8 = 0x02;

pub const LIGHT_THREE: u8 = 0x04;

pub const LIGHT_FOUR: u8 = 0x08;

/// All four lamps lit.
pub const LIGHT_ALL: u8 = 0x0F;

/// The state of the four indicator lamps, a 4-bit set.
#[derive(Debug, Clone, Copy, PartialEq, Eq, Structural)]
pub struct Lights {
    pub bits: u8,
}

impl Lights {
    /// Only the four low bits may be set.
    pub open spec fn wf(self) -> bool {
        self.bits <= LIGHT_ALL
    }

    /// The lamp pattern that `scale` maps `value` to: lamp one always, plus
    /// one further lamp for each full quarter of the 0-255 range.
    pub open spec fn spec_scale(value: u8) -> u8 {
        if value < 64 {
            0x01
        } else if value < 128 {
            0x03
        } else if value < 192 {
            0x07
        } else {
            0x0F
        }
    }

    /// All four lamps.
    pub fn all() -> (r: Lights)
        ensures
            r.bits == LIGHT_ALL,
    {
        Lights { bits: LIGHT_ALL }
    }

    /// Represents the given value as a monotonic linear gauge on the four
    /// lamps: 0-63 lights lamp one only, 64-127 lamps one and two, 128-191
    /// three lamps, 192-255 all four.
    pub fn scale(value: u8) -> (r: Lights)
        ensures
            r.bits == Lights::spec_scale(value),
            r.wf(),
    {
        let bucket: u8 = value >> 6;
        proof {
            assert(((value >> 6 == 0) <==> value < 64) && ((value >> 6 == 1) <==> (64 <= value
                && value < 128)) && ((value >> 6 == 2) <==> (128 <= value && value < 192)))
                by (bit_vector);
        }
        if bucket == 0 {
            Lights { bits: 0x01 }
        } else if bucket == 1 {
            Lights { bits: 0x03 }
        } else if bucket == 2 {
            Lights { bits: 0x07 }
        } else {
            Lights { bits: 0x0F }
        }
    }
}

/// A parsed device-to-host report.
#[derive(Debug, Clone, Copy, PartialEq, Eq, Structural)]
pub enum InputReport {
    /// Received in response to an `OutputReport::RequestStatus`, or
    /// unsolicited when an extension is plugged or unplugged. In the latter
    /// case the reporting mode must be reasserted with an
    /// `OutputReport::SetDrm`.
    Status {
        buttons: Buttons,
        lights: Lights,
        battery: u8,
        plugged_ext: bool,
        speaker_enabled: bool,
        ir_enabled: bool,
    },
    /// A periodic data report; only the button field is decoded.
    /// Upon connection the reporting mode defaults to `0x30`.
    Drm { buttons: Buttons, mode: u8 },
    /// Acknowledgement of an `OutputReport`: `code` is `0` on success.
    Ack { buttons: Buttons, response_to: u8, code: u8 },
}

/// True for the tag bytes of the periodic data reports.
pub open spec fn is_drm_tag(tag: u8) -> bool {
    (0x30 <= tag && tag <= 0x37) || (0x3D <= tag && tag <= 0x3F)
}

/// Whole frame length (marker and tag included) of the periodic report
/// selected by `tag`.
pub open spec fn drm_frame_len(tag: u8) -> usize {
    if tag == 0x30 {
        4
    } else if tag == 0x31 {
        7
    } else if tag == 0x32 {
        12
    } else if tag == 0x33 {
        19
    } else {
        23
    }
}

/// The status report held in a buffer whose first eight bytes form a
/// status frame. Byte 4 packs the lamp state in its high nibble and the
/// extension, speaker and IR flags in bits 1 to 3; byte 7 is the battery
/// level; bytes 5 and 6 are reserved.
pub open spec fn spec_status_report(data: Seq<u8>) -> InputReport {
    InputReport::Status {
        buttons: spec_button_field(data[2], data[3]),
        lights: Lights { bits: data[4] >> 4 },
        battery: data[7],
        plugged_ext: data[4] & 0x02 != 0,
        speaker_enabled: data[4] & 0x04 != 0,
        ir_enabled: data[4] & 0x08 != 0,
    }
}

/// The decode relation of the inbound grammar: either the parsed report
/// together with the exact number of bytes it occupies at the front of
/// `data`, or the error that the buffer forces. `Incomplete` is returned
/// whenever `data` is a proper prefix of some longer well-formed frame.
pub open spec fn spec_parse(data: Seq<u8>) -> Result<(InputReport, usize), ReportError> {
    if data.len() < 3 {
        Err(ReportError::Incomplete)
    } else if data[0] != INPUT_TRANS_HEADER {
        Err(ReportError::InvalidHeader(data[0]))
    } else {
        let tag = data[1];
        if tag == 0x20 {
            if data.len() < 8 {
                Err(ReportError::Incomplete)
            } else {
                Ok((spec_status_report(data), 8))
            }
        } else if tag == 0x22 {
            if data.len() < 6 {
                Err(ReportError::Incomplete)
            } else {
                Ok(
                    (
                        InputReport::Ack {
                            buttons: spec_button_field(data[2], data[3]),
                            response_to: data[4],
                            code: data[5],
                        },
                        6,
                    ),
                )
            }
        } else if is_drm_tag(tag) {
            if data.len() < drm_frame_len(tag) {
                Err(ReportError::Incomplete)
            } else {
                let buttons = if tag == 0x3D {
                    Buttons { bits: 0 }
                } else {
                    spec_button_field(data[2], data[3])
                };
                Ok((InputReport::Drm { buttons, mode: tag }, drm_frame_len(tag)))
            }
        } else {
            Err(ReportError::UnknownReportType(tag))
        }
    }
}

/// Succeeds exactly when `len` bytes can be read at offset `pos` of `src`.
pub fn ensure_readable(src: &[u8], pos: usize, len: usize) -> (r: Result<(), ReportError>)
    ensures
        r is Ok <==> pos + len <= src@.len(),
        r is Err ==> r == Err::<(), ReportError>(ReportError::Incomplete),
{
    if src.len() >= pos && src.len() - pos >= len {
        Ok(())
    } else {
        Err(ReportError::Incomplete)
    }
}

impl InputReport {
    /// Decodes one frame from the front of `src`, returning the report and
    /// the number of bytes it consumed; the caller removes exactly that many
    /// bytes. `Incomplete` asks the caller to buffer more bytes and retry
    /// the whole parse; the other errors are fatal.
    pub fn parse(src: &[u8]) -> (r: Result<(InputReport, usize), ReportError>)
        ensures
            r == spec_parse(src@),
    {
        if src.len() < 3 {
            return Err(ReportError::Incomplete);
        }
        let header: u8 = src[0];
        if header != INPUT_TRANS_HEADER {
            return Err(ReportError::InvalidHeader(header));
        }
        let tag: u8 = src[1];
        if tag == 0x20 {
            if let Err(e) = ensure_readable(src, 2, 6) {
                return Err(e);
            }
            let buttons = Buttons::from_common(src, 2);
            let status: u8 = src[4];
            let battery: u8 = src[7];
            Ok(
                (
                    InputReport::Status {
                        buttons,
                        lights: Lights { bits: status >> 4 },
                        battery,
                        plugged_ext: status & 0x02 != 0,
                        speaker_enabled: status & 0x04 != 0,
                        ir_enabled: status & 0x08 != 0,
                    },
                    8,
                ),
            )
        } else if tag == 0x22 {
            if let Err(e) = ensure_readable(src, 2, 4) {
                return Err(e);
            }
            let buttons = Buttons::from_common(src, 2);
            let response_to: u8 = src[4];
            let code: u8 = src[5];
            Ok((InputReport::Ack { buttons, response_to, code }, 6))
        } else if (0x30 <= tag && tag <= 0x37) || (0x3D <= tag && tag <= 0x3F) {
            let len: usize = if tag == 0x30 {
                4
            } else if tag == 0x31 {
                7
            } else if tag == 0x32 {
                12
            } else if tag == 0x33 {
                19
            } else {
                23
            };
            if let Err(e) = ensure_readable(src, 2, len - 2) {
                return Err(e);
            }
            let buttons = if tag != 0x3D {
                Buttons::from_common(src, 2)
            } else {
                Buttons::empty()
            };
            Ok((InputReport::Drm { buttons, mode: tag }, len))
        } else {
            Err(ReportError::UnknownReportType(tag))
        }
    }

    /// The button set that this report carries.
    pub open spec fn spec_buttons(self) -> Buttons {
        match self {
            InputReport::Status { buttons, .. } => buttons,
            InputReport::Drm { buttons, .. } => buttons,
            InputReport::Ack { buttons, .. } => buttons,
        }
    }

    /// The currently pressed buttons.
    pub fn buttons(&self) -> (r: Buttons)
        ensures
            r == self.spec_buttons(),
    {
        match *self {
            InputReport::Status { buttons, .. } => buttons,
            InputReport::Drm { buttons, .. } => buttons,
            InputReport::Ack { buttons, .. } => buttons,
        }
    }
}

/// Law: a status frame assembled by concatenating its exact fields parses
/// back to those fields and consumes the whole eight bytes, whatever the
/// field values (the two reserved bytes are ignored).
pub proof fn lemma_parse_status_frame(hi: u8, lo: u8, status: u8, res1: u8, res2: u8, battery: u8)
    ensures
        spec_parse(seq![INPUT_TRANS_HEADER, 0x20u8, hi, lo, status, res1, res2, battery])
            == Ok::<(InputReport, usize), ReportError>(
            (
                InputReport::Status {
                    buttons: spec_button_field(hi, lo),
                    lights: Lights { bits: status >> 4 },
                    battery,
                    plugged_ext: status & 0x02 != 0,
                    speaker_enabled: status & 0x04 != 0,
                    ir_enabled: status & 0x08 != 0,
                },
                8,
            ),
        ),
{
    let data = seq![INPUT_TRANS_HEADER, 0x20u8, hi, lo, status, res1, res2, battery];
    assert(data.len() == 8);
    assert(data[0] == INPUT_TRANS_HEADER && data[1] == 0x20u8 && data[2] == hi && data[3] == lo
        && data[4] == status && data[7] == battery);
}

/// Law: an acknowledgement frame assembled from its fields parses back to
/// those fields and consumes the whole six bytes.
pub proof fn lemma_parse_ack_frame(hi: u8, lo: u8, response_to: u8, code: u8)
    ensures
        spec_parse(seq![INPUT_TRANS_HEADER, 0x22u8, hi, lo, response_to, code])
            == Ok::<(InputReport, usize), ReportError>(
            (
                InputReport::Ack { buttons: spec_button_field(hi, lo), response_to, code },
                6,
            ),
        ),
{
    let data = seq![INPUT_TRANS_HEADER, 0x22u8, hi, lo, response_to, code];
    assert(data.len() == 6);
    assert(data[0] == INPUT_TRANS_HEADER && data[1] == 0x22u8 && data[2] == hi && data[3] == lo
        && data[4] == response_to && data[5] == code);
}

/// Law: a periodic report of any supported tag, assembled as marker, tag
/// and a payload of the tag's exact length, parses to a `Drm` report whose
/// buttons are the leading two payload bytes (empty for tag `0x3D`, which
/// carries no button field) and consumes the whole frame.
pub proof fn lemma_parse_drm_frame(tag: u8, payload: Seq<u8>)
    requires
        is_drm_tag(tag),
        payload.len() == drm_frame_len(tag) - 2,
    ensures
        spec_parse(seq![INPUT_TRANS_HEADER, tag] + payload)
            == Ok::<(InputReport, usize), ReportError>(
            (
                InputReport::Drm {
                    buttons: if tag == 0x3D {
                        Buttons { bits: 0 }
                    } else {
                        spec_button_field(payload[0], payload[1])
                    },
                    mode: tag,
                },
                drm_frame_len(tag),
            ),
        ),
{
    let data = seq![INPUT_TRANS_HEADER, tag] + payload;
    assert(data.len() == drm_frame_len(tag));
    assert(data[0] == INPUT_TRANS_HEADER && data[1] == tag);
    assert(data[2] == payload[0] && data[3] == payload[1]);
}

/// Law (streaming, first half): while fewer bytes than the frame occupies
/// have arrived, every parse attempt yields `Incomplete` and nothing else,
/// so a caller that buffers and retries never misreads a split frame.
pub proof fn lemma_parse_prefix_incomplete(data: Seq<u8>, i: int, report: InputReport, n: usize)
    requires
        spec_parse(data) == Ok::<(InputReport, usize), ReportError>((report, n)),
        0 <= i < n,
    ensures
        spec_parse(data.take(i)) == Err::<(InputReport, usize), ReportError>(
            ReportError::Incomplete,
        ),
{
    let prefix = data.take(i);
    assert(prefix.len() == i);
    if i >= 3 {
        assert(prefix[0] == data[0] && prefix[1] == data[1]);
    }
}

/// Law (streaming, second half): once the bytes of the frame have arrived,
/// the parse result is the same whatever later bytes follow them in the
/// buffer. With the first half this gives streaming equivalence: splitting
/// a frame at any positions and delivering the pieces across several
/// appends yields the identical report as delivering it whole.
pub proof fn lemma_parse_ignores_trailing(data: Seq<u8>, i: int, report: InputReport, n: usize)
    requires
        spec_parse(data) == Ok::<(InputReport, usize), ReportError>((report, n)),
        n <= i <= data.len(),
    ensures
        spec_parse(data.take(i)) == Ok::<(InputReport, usize), ReportError>((report, n)),
{
    let prefix = data.take(i);
    assert(prefix.len() == i);
    assert(n >= 4);
    assert(prefix[0] == data[0] && prefix[1] == data[1] && prefix[2] == data[2] && prefix[3]
        == data[3]);
    if data[1] == 0x20 {
        assert(prefix[4] == data[4] && prefix[7] == data[7]);
    }
    if data[1] == 0x22 {
        assert(prefix[4] == data[4] && prefix[5] == data[5]);
    }
}

/// A host-to-device command frame.
#[derive(Debug, Clone, Copy, PartialEq, Eq, Structural)]
pub enum OutputReport {
    /// Lights the given lamps.
    SetLights(Lights),
    /// Selects a periodic reporting mode, keeping the lamps as given.
    SetDrm { lights: Lights, mode: u8 },
    /// Asks the device for an `InputReport::Status`.
    RequestStatus { lights: Lights },
}

/// The exact bytes of an encoded command: the outbound marker, the tag,
/// the lamp bits shifted into the high nibble, and for `SetDrm` the
/// reporting-mode byte.
pub open spec fn spec_encode(report: OutputReport) -> Seq<u8> {
    match report {
        OutputReport::SetLights(lights) => seq![OUTPUT_TRANS_HEADER, 0x11u8, lights.bits << 4],
        OutputReport::SetDrm { lights, mode } => seq![
            OUTPUT_TRANS_HEADER,
            0x12u8,
            lights.bits << 4,
            mode,
        ],
        OutputReport::RequestStatus { lights } => seq![
            OUTPUT_TRANS_HEADER,
            0x15u8,
            lights.bits << 4,
        ],
    }
}

impl OutputReport {
    /// Encodes this command into the bytes the device expects. Total: every
    /// command has an encoding.
    pub fn encode(&self) -> (r: Vec<u8>)
        ensures
            r@ == spec_encode(*self),
    {
        let mut out: Vec<u8> = Vec::new();
        out.push(OUTPUT_TRANS_HEADER);
        match *self {
            OutputReport::SetLights(lights) => {
                out.push(0x11);
                out.push(lights.bits << 4);
            },
            OutputReport::SetDrm { lights, mode } => {
                out.push(0x12);
                out.push(lights.bits << 4);
                out.push(mode);
            },
            OutputReport::RequestStatus { lights } => {
                out.push(0x15);
                out.push(lights.bits << 4);
            },
        }
        proof {
            assert(out@ =~= spec_encode(*self));
        }
        out
    }
}

} // verus!
