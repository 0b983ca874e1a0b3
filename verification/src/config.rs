//! Settings read at start-up, once their text is in hand.

use vstd::prelude::*;
use crate::text::{chars_of, parse_unsigned, parse_unsigned_spec};

verus! {

/// The port that is served where none is set.
pub const DEFAULT_PORT: u16 = 5000;

/// The greatest port there is.
pub const PORT_LIMIT: u32 = 65535;

/// The port that a setting asks for: the default where there is no setting,
/// the number where the setting is a numeral for a port, and none where it is
/// anything else.
pub open spec fn port_spec(setting: Option<Seq<char>>) -> Option<u16> {
    match setting {
        None => Some(DEFAULT_PORT),
        Some(text) => match parse_unsigned_spec(text, PORT_LIMIT as nat) {
            Some(port) => Some(port as u16),
            None => None,
        },
    }
}

/// The port that a setting asks for.
pub fn port_from(setting: Option<&str>) -> (port: Option<u16>)
    ensures
        port == port_spec(
            match setting {
                Some(text) => Some(text@),
                None => None,
            },
        ),
{
    match setting {
        None => Some(DEFAULT_PORT),
        Some(text) => {
            let chars = chars_of(text);
            assert(chars@.subrange(0, chars@.len() as int) == chars@);
            match parse_unsigned(chars.as_slice(), 0, PORT_LIMIT) {
                Some(port) => Some(port as u16),
                None => None,
            }
        },
    }
}

} // verus!
