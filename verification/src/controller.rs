//! The device state machine. It owns no I/O: each entry point takes the
//! event that the run loop raced (a parsed report, a heartbeat tick) plus
//! the latest signal-strength reading, steps the state, and returns the
//! exact sequence of commands to write to the data channel. The run loop
//! around it performs the writes and forwards each report's buttons to
//! the input sink exactly once.

use vstd::prelude::*;

use crate::report::{
    InputReport, Lights, OutputReport, BUTTON_ONE, BUTTON_TWO, LIGHT_ALL,
};

verus! {

/// The metric that the four lamps currently display.
#[derive(Debug, Clone, Copy, PartialEq, Eq, Structural)]
pub enum LightsMode {
    /// Display the battery level.
    Battery,
    /// Display the connection strength level.
    Connection,
}

/// Reporting mode commanded after an unsolicited status report:
/// buttons only, the device's default.
pub const DEFAULT_DRM: u8 = 0x30;

/// The state of one controller session: the displayed metric, the lamp
/// pattern last commanded, and whether a requested status reply is still
/// outstanding.
#[derive(Debug, Clone, Copy, PartialEq, Eq, Structural)]
pub struct Wiimote {
    pub mode: LightsMode,
    pub prev_lights: Lights,
    pub awaiting_status: bool,
}

/// Normalizes a signal-strength reading onto 0 to 255. The reading runs
/// from 0 (strongest) down to about -80 (weakest); it is clamped to that
/// range and mapped linearly, so 0 maps to level 0 and -80 to level 255.
/// A missing reading counts as strongest.
pub open spec fn spec_signal_level(rssi: Option<i16>) -> u8 {
    let raw = match rssi {
        Some(v) => v as int,
        None => 0,
    };
    let clamped = if raw > 0 {
        0
    } else if raw < -80 {
        -80
    } else {
        raw
    };
    (((0 - clamped) * 255) / 80) as u8
}

/// The heartbeat step: request a status report (which also reasserts the
/// lamps last commanded), and note that a reply is owed. In
/// connection-quality mode the lamps are recomputed at once from the
/// signal reading, inverted so that a stronger signal lights more lamps.
pub open spec fn spec_heartbeat(state: Wiimote, rssi: Option<i16>) -> (Wiimote, Seq<
    OutputReport,
>) {
    let request = OutputReport::RequestStatus { lights: state.prev_lights };
    if state.mode is Connection {
        let lamps = Lights { bits: Lights::spec_scale((255 - spec_signal_level(rssi)) as u8) };
        (
            Wiimote { mode: state.mode, prev_lights: lamps, awaiting_status: true },
            seq![request, OutputReport::SetLights(lamps)],
        )
    } else {
        (Wiimote { awaiting_status: true, ..state }, seq![request])
    }
}

/// The report step. First, a button set equal to exactly One or exactly
/// Two selects the battery or the connection metric and re-runs the
/// heartbeat step at once. Then a status report is handled: if a reply was
/// owed it no longer is, and in battery mode the battery level is shown on
/// the lamps; an unsolicited status means the device reset its reporting
/// mode (an extension was plugged or unplugged), so the default mode is
/// reasserted. Any other report steps nothing.
pub open spec fn spec_handle_report(state: Wiimote, report: InputReport, rssi: Option<i16>) -> (
    Wiimote,
    Seq<OutputReport>,
) {
    let switched = if report.spec_buttons().bits == BUTTON_ONE {
        spec_heartbeat(Wiimote { mode: LightsMode::Battery, ..state }, rssi)
    } else if report.spec_buttons().bits == BUTTON_TWO {
        spec_heartbeat(Wiimote { mode: LightsMode::Connection, ..state }, rssi)
    } else {
        (state, Seq::<OutputReport>::empty())
    };
    let s1 = switched.0;
    let cmds = switched.1;
    if report is Status {
        if s1.awaiting_status {
            let cleared = Wiimote { awaiting_status: false, ..s1 };
            if s1.mode is Battery {
                let lamps = Lights { bits: Lights::spec_scale(report->battery) };
                (
                    Wiimote { prev_lights: lamps, ..cleared },
                    cmds.push(OutputReport::SetLights(lamps)),
                )
            } else {
                (cleared, cmds)
            }
        } else {
            (s1, cmds.push(OutputReport::SetDrm { lights: s1.prev_lights, mode: DEFAULT_DRM }))
        }
    } else {
        (s1, cmds)
    }
}

/// See `spec_signal_level`. The division is carried out on non-negative
/// 16-bit values, so truncating and mathematical division agree.
pub fn signal_level(rssi: Option<i16>) -> (r: u8)
    ensures
        r == spec_signal_level(rssi),
{
    let raw: i16 = match rssi {
        Some(v) => v,
        None => 0,
    };
    let clamped: i16 = if raw > 0 {
        0
    } else if raw < -80 {
        -80
    } else {
        raw
    };
    let magnitude: u16 = (0 - clamped) as u16;
    ((magnitude * 255) / 80) as u8
}

impl Wiimote {
    /// A fresh session: battery display (the connection strength is
    /// probably high right after pairing), all lamps taken as lit, and no
    /// status reply owed.
    pub fn new() -> (r: Wiimote)
        ensures
            r.mode is Battery,
            r.prev_lights.bits == LIGHT_ALL,
            !r.awaiting_status,
    {
        Wiimote {
            mode: LightsMode::Battery,
            prev_lights: Lights { bits: LIGHT_ALL },
            awaiting_status: false,
        }
    }

    /// The heartbeat tick: returns the commands to write, in order.
    pub fn send_heartbeat(&mut self, rssi: Option<i16>) -> (cmds: Vec<OutputReport>)
        ensures
            *final(self) == spec_heartbeat(*old(self), rssi).0,
            cmds@ == spec_heartbeat(*old(self), rssi).1,
    {
        let mut cmds: Vec<OutputReport> = Vec::new();
        cmds.push(OutputReport::RequestStatus { lights: self.prev_lights });
        self.awaiting_status = true;
        match self.mode {
            LightsMode::Connection => {
                let level = signal_level(rssi);
                let lamps = Lights::scale(255 - level);
                self.prev_lights = lamps;
                cmds.push(OutputReport::SetLights(lamps));
            },
            LightsMode::Battery => {},
        }
        proof {
            assert(cmds@ =~= spec_heartbeat(*old(self), rssi).1);
        }
        cmds
    }

    /// Selects the displayed metric and re-runs the heartbeat step at
    /// once, commanding fresh telemetry rather than waiting for the next
    /// tick. The switch is unconditional: pressing the mode button again
    /// re-commands telemetry even if the metric is unchanged.
    fn set_mode(&mut self, mode: LightsMode, rssi: Option<i16>) -> (cmds: Vec<OutputReport>)
        ensures
            *final(self) == spec_heartbeat(Wiimote { mode, ..*old(self) }, rssi).0,
            cmds@ == spec_heartbeat(Wiimote { mode, ..*old(self) }, rssi).1,
    {
        self.mode = mode;
        self.send_heartbeat(rssi)
    }

    /// Steps the state machine on one parsed report and returns the
    /// commands to write, in order. The caller forwards the report's
    /// buttons to the input sink exactly once, whatever they are.
    pub fn handle_report(&mut self, report: &InputReport, rssi: Option<i16>) -> (cmds: Vec<
        OutputReport,
    >)
        ensures
            *final(self) == spec_handle_report(*old(self), *report, rssi).0,
            cmds@ == spec_handle_report(*old(self), *report, rssi).1,
    {
        let buttons = report.buttons();
        let mut cmds: Vec<OutputReport> = if buttons.bits == BUTTON_ONE {
            self.set_mode(LightsMode::Battery, rssi)
        } else if buttons.bits == BUTTON_TWO {
            self.set_mode(LightsMode::Connection, rssi)
        } else {
            Vec::new()
        };
        if let InputReport::Status { battery, .. } = *report {
            if self.awaiting_status {
                self.awaiting_status = false;
                if self.mode == LightsMode::Battery {
                    let lamps = Lights::scale(battery);
                    self.prev_lights = lamps;
                    cmds.push(OutputReport::SetLights(lamps));
                }
            } else {
                cmds.push(
                    OutputReport::SetDrm { lights: self.prev_lights, mode: DEFAULT_DRM },
                );
            }
        }
        cmds
    }
}

} // verus!
