//! The decision rules of discovery, pairing and listening. The radio
//! calls themselves (scanning, the pairing exchange, accepting channels)
//! stay with the caller; these functions decide, from plain values, which
//! device to take, what secret to answer a pairing challenge with, and
//! which pair of inbound connections to accept.

use vstd::prelude::*;

use vstd::string::StrSliceExecFns;

verus! {

/// Display alias of the original controller model.
pub const ALIAS_PLAIN: &'static str = "Nintendo RVL-CNT-01";

/// Display alias of the later controller revision, which requires pairing
/// when made discoverable with its front buttons.
pub const ALIAS_TR: &'static str = "Nintendo RVL-CNT-01-TR";

/// Character-by-character string equality.
fn str_eq(a: &str, b: &str) -> (r: bool)
    ensures
        r == (a@ == b@),
{
    let a_len = a.unicode_len();
    let b_len = b.unicode_len();
    if a_len != b_len {
        return false;
    }
    let mut i: usize = 0;
    while i < a_len
        invariant
            i <= a_len,
            a_len == a@.len(),
            a_len == b@.len(),
            forall|j: int| 0 <= j < i ==> a@[j] == b@[j],
        decreases a_len - i,
    {
        if a.get_char(i) != b.get_char(i) {
            return false;
        }
        i += 1;
    }
    proof {
        assert(a@ =~= b@);
    }
    true
}

/// True exactly for the known display aliases of the peripheral.
pub open spec fn spec_is_wiimote_alias(alias: Seq<char>) -> bool {
    alias == ALIAS_PLAIN@ || alias == ALIAS_TR@
}

/// Whether a device with this alias is the peripheral sought.
pub fn is_wiimote_alias(alias: &str) -> (r: bool)
    ensures
        r == spec_is_wiimote_alias(alias@),
{
    str_eq(alias, ALIAS_PLAIN) || str_eq(alias, ALIAS_TR)
}

/// Whether a device-appeared notification is accepted: the alias must be
/// a known one, and the device must currently report a signal-strength
/// reading — the notification stream also names known devices that are
/// out of range, and an absent reading means out of range.
pub fn should_accept_device(alias: &str, rssi: Option<i16>) -> (r: bool)
    ensures
        r == (spec_is_wiimote_alias(alias@) && rssi is Some),
{
    is_wiimote_alias(alias) && rssi.is_some()
}

/// Equality of two six-byte radio addresses.
fn addr_eq(a: &[u8; 6], b: &[u8; 6]) -> (r: bool)
    ensures
        r == (a@ == b@),
{
    let mut i: usize = 0;
    while i < 6
        invariant
            i <= 6,
            forall|j: int| 0 <= j < i ==> a@[j] == b@[j],
        decreases 6 - i,
    {
        if a[i] != b[i] {
            return false;
        }
        i += 1;
    }
    proof {
        assert(a@ =~= b@);
    }
    true
}

/// The shared secret answered to a pairing challenge: the host radio's own
/// address with byte order reversed, treated as an opaque byte string (it
/// need not be valid text).
pub fn pin_code(adapter_addr: &[u8; 6]) -> (r: Vec<u8>)
    ensures
        r@ == adapter_addr@.reverse(),
{
    let mut out: Vec<u8> = Vec::new();
    let mut i: usize = 0;
    while i < 6
        invariant
            i <= 6,
            out@.len() == i,
            forall|j: int| 0 <= j < i ==> out@[j] == adapter_addr@[5 - j],
        decreases 6 - i,
    {
        out.push(adapter_addr[5 - i]);
        i += 1;
    }
    proof {
        assert(out@ =~= adapter_addr@.reverse());
    }
    out
}

/// Answers a pairing authentication challenge. A challenge naming the
/// device being paired is answered with the shared secret; a challenge
/// naming any other device is rejected (`None`) — expected and benign, it
/// does not fail the pairing call.
pub fn challenge_response(request_addr: &[u8; 6], device_addr: &[u8; 6], adapter_addr: &[u8; 6])
    -> (r: Option<Vec<u8>>)
    ensures
        request_addr@ == device_addr@ ==> (r matches Some(pin) && pin@
            == adapter_addr@.reverse()),
        request_addr@ != device_addr@ ==> r is None,
{
    if addr_eq(request_addr, device_addr) {
        Some(pin_code(adapter_addr))
    } else {
        None
    }
}

/// Whether a pair of inbound connections, one accepted on the control
/// listener and one on the data listener, is taken as one device: both
/// must come from the same remote address (a racing pair is not the same
/// physical device) and that device must already be authenticated.
pub fn accept_incoming(control_addr: &[u8; 6], data_addr: &[u8; 6], paired: bool) -> (r: bool)
    ensures
        r == (control_addr@ == data_addr@ && paired),
{
    addr_eq(control_addr, data_addr) && paired
}

} // verus!
