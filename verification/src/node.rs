//! The 48-bit node id: reading the first network interface's hardware (MAC)
//! address, parsing its colon-separated hex form, and the random fallback.

use vstd::prelude::*;

verus! {

/// ASCII `'0'`.
pub const DIGIT_LO: u8 = 48;

/// ASCII `'9'`.
pub const DIGIT_HI: u8 = 57;

/// ASCII `'a'`.
pub const LOWER_LO: u8 = 97;

/// ASCII `'f'`.
pub const LOWER_HI: u8 = 102;

/// ASCII `'A'`.
pub const UPPER_LO: u8 = 65;

/// ASCII `'F'`.
pub const UPPER_HI: u8 = 70;

/// ASCII `':'`.
pub const COLON: u8 = 58;

/// An ASCII hex digit, in either case.
pub open spec fn is_hex_byte(b: u8) -> bool {
    (DIGIT_LO <= b && b <= DIGIT_HI) || (LOWER_LO <= b && b <= LOWER_HI) || (UPPER_LO <= b && b <= UPPER_HI)
}

/// The value of an ASCII hex digit.
pub open spec fn hex_val(b: u8) -> u8 {
    if DIGIT_LO <= b && b <= DIGIT_HI {
        (b - DIGIT_LO) as u8
    } else if LOWER_LO <= b && b <= LOWER_HI {
        (b - LOWER_LO + 10) as u8
    } else {
        (b - UPPER_LO + 10) as u8
    }
}

/// The byte written as the two hex digits `hi`, `lo`.
pub open spec fn pair_val(hi: u8, lo: u8) -> u8 {
    (hex_val(hi) * 16 + hex_val(lo)) as u8
}

/// A MAC address in the standard textual form: six two-digit hex groups
/// separated by colons, as in `aa:bb:cc:dd:ee:ff`.
pub open spec fn is_mac(s: Seq<u8>) -> bool {
    s.len() == 17 && s[2] == COLON && s[5] == COLON && s[8] == COLON && s[11] == COLON && s[14] == COLON
        && is_hex_byte(s[0]) && is_hex_byte(s[1]) && is_hex_byte(s[3]) && is_hex_byte(s[4])
        && is_hex_byte(s[6]) && is_hex_byte(s[7]) && is_hex_byte(s[9]) && is_hex_byte(s[10])
        && is_hex_byte(s[12]) && is_hex_byte(s[13]) && is_hex_byte(s[15]) && is_hex_byte(s[16])
}

/// The six bytes of a MAC address in the standard textual form.
pub open spec fn mac_value(s: Seq<u8>) -> Seq<u8> {
    seq![
        pair_val(s[0], s[1]),
        pair_val(s[3], s[4]),
        pair_val(s[6], s[7]),
        pair_val(s[9], s[10]),
        pair_val(s[12], s[13]),
        pair_val(s[15], s[16]),
    ]
}

/// The value of one ASCII hex digit, or `None` for any other byte.
fn hex_digit_val(b: u8) -> (r: Option<u8>)
    ensures
        is_hex_byte(b) ==> (r matches Some(v) && v == hex_val(b)),
        !is_hex_byte(b) ==> r is None,
{
    if DIGIT_LO <= b && b <= DIGIT_HI {
        Some(b - DIGIT_LO)
    } else if LOWER_LO <= b && b <= LOWER_HI {
        Some(b - LOWER_LO + 10)
    } else if UPPER_LO <= b && b <= UPPER_HI {
        Some(b - UPPER_LO + 10)
    } else {
        None
    }
}

/// The byte written as the two hex digits `hi`, `lo`, or `None` when either
/// is no hex digit.
fn parse_pair(hi: u8, lo: u8) -> (r: Option<u8>)
    ensures
        (is_hex_byte(hi) && is_hex_byte(lo)) ==> (r matches Some(v) && v == pair_val(hi, lo)),
        !(is_hex_byte(hi) && is_hex_byte(lo)) ==> r is None,
{
    match hex_digit_val(hi) {
        Some(h) => match hex_digit_val(lo) {
            Some(l) => Some(h * 16 + l),
            None => None,
        },
        None => None,
    }
}

/// Parses a MAC address in the standard textual form into its six bytes;
/// returns `None` exactly when the input is not in that form.
pub fn parse_mac(s: &[u8]) -> (r: Option<[u8; 6]>)
    ensures
        is_mac(s@) ==> (r matches Some(b) && b@ == mac_value(s@)),
        !is_mac(s@) ==> r is None,
{
    if s.len() != 17 {
        return None;
    }
    if s[2] != COLON || s[5] != COLON || s[8] != COLON || s[11] != COLON || s[14] != COLON {
        return None;
    }
    let mut out = [0u8; 6];
    match parse_pair(s[0], s[1]) {
        Some(v) => out[0] = v,
        None => return None,
    }
    match parse_pair(s[3], s[4]) {
        Some(v) => out[1] = v,
        None => return None,
    }
    match parse_pair(s[6], s[7]) {
        Some(v) => out[2] = v,
        None => return None,
    }
    match parse_pair(s[9], s[10]) {
        Some(v) => out[3] = v,
        None => return None,
    }
    match parse_pair(s[12], s[13]) {
        Some(v) => out[4] = v,
        None => return None,
    }
    match parse_pair(s[15], s[16]) {
        Some(v) => out[5] = v,
        None => return None,
    }
    assert(out@ =~= mac_value(s@));
    Some(out)
}

/// Fills the node-id buffer: the first network interface's hardware address
/// when one can be enumerated and read, else six random bytes.
pub(crate) fn init_hardware_addr(buffer: &mut [u8; 6]) {
    match first_interface_mac() {
        Some(addr) => match parse_mac(addr.as_slice()) {
            Some(bytes) => {
                *buffer = bytes;
            },
            None => {
                *buffer = random_node();
            },
        },
        None => {
            *buffer = random_node();
        },
    }
}

/// Relies on the interfaces crate: `Interface::get_all` lists the machine's
/// network interfaces, `Interface::hardware_addr` reads one's hardware (MAC)
/// address, and `HardwareAddr::as_string` renders it as colon-separated hex.
/// Returns those bytes for the first interface, or `None` when enumeration
/// fails or finds none. The result depends on the machine, so nothing is
/// promised of it.
#[verifier::external_body]
fn first_interface_mac() -> Option<Vec<u8>> {
    match interfaces::Interface::get_all() {
        Ok(list) => match list.first() {
            Some(i) => match i.hardware_addr() {
                Ok(addr) => Some(addr.as_string().into_bytes()),
                Err(_) => None,
            },
            None => None,
        },
        Err(_) => None,
    }
}

/// Relies on rand's `random`: six uniformly random bytes for the node-id
/// fallback. Nothing can be promised of a random value.
#[verifier::external_body]
fn random_node() -> [u8; 6] {
    rand::random::<[u8; 6]>()
}

} // verus!
