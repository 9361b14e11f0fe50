use vstd::prelude::*;
use vstd::string::StringExecFns;

use crate::connections::{direction_name, direction_str, Direction};
use crate::text::{decimal, push_decimal};

verus! {

/// What went wrong, with a message that names the core concerned.
pub enum SVGErrorKind {
    /// A connection of a core could not be found.
    ConnectionError(String),
    /// The architecture data lacks a record that the grid expects.
    ManycoreMismatch(String),
    /// The configuration or the grid dimensions are inconsistent.
    ConfigurationError(String),
}

/// An error of rendering.
pub struct SVGError {
    pub error_kind: SVGErrorKind,
}

impl SVGError {
    pub fn new(error_kind: SVGErrorKind) -> (r: Self)
        ensures
            r.error_kind == error_kind,
    {
        SVGError { error_kind }
    }
}

/// The text `<prefix><n>`.
pub(crate) fn message_with_number(prefix: &str, n: u64) -> (r: String)
    ensures
        r@ == prefix@ + decimal(n as nat),
{
    let mut s = String::from_str(prefix);
    push_decimal(&mut s, n);
    s
}

/// The message of a connection path that could not be found.
pub open spec fn missing_connection_message(idx: nat) -> Seq<char> {
    "Could not grab SVG connection path for Core "@ + decimal(idx)
}

/// The message of source loads that could not be found.
pub open spec fn missing_source_loads_message(core_id: u8) -> Seq<char> {
    "Could not retrieve source loads for Core "@ + decimal(core_id as nat)
}

/// The error of a connection path of core `idx` that could not be found.
pub fn missing_connection(idx: &usize) -> (r: SVGError)
    ensures
        r.error_kind matches SVGErrorKind::ConnectionError(m) && m@ == missing_connection_message(
            *idx as nat,
        ),
{
    SVGError::new(
        SVGErrorKind::ConnectionError(
            message_with_number("Could not grab SVG connection path for Core ", *idx as u64),
        ),
    )
}

/// The error of source loads of a core that were expected and not found.
pub fn missing_source_loads(core_id: &u8) -> (r: SVGError)
    ensures
        r.error_kind matches SVGErrorKind::ManycoreMismatch(m) && m@
            == missing_source_loads_message(*core_id),
{
    SVGError::new(
        SVGErrorKind::ManycoreMismatch(
            message_with_number("Could not retrieve source loads for Core ", *core_id as u64),
        ),
    )
}

/// The message of a channel of a core that could not be found.
pub open spec fn missing_channel_message(core_id: u8, direction: Direction) -> Seq<char> {
    "Could not retrieve "@ + direction_name(direction) + " channel for Core "@ + decimal(
        core_id as nat,
    )
}

/// The message of a source channel load of a core that could not be found.
pub open spec fn missing_source_load_message(core_id: u8, direction: Direction) -> Seq<char> {
    "Could not retrieve "@ + direction_name(direction) + " source channel load for Core "@
        + decimal(core_id as nat)
}

/// The text `Could not retrieve <direction><middle><core_id>`.
fn direction_message(direction: &Direction, middle: &str, core_id: &u8) -> (r: String)
    ensures
        r@ == "Could not retrieve "@ + direction_name(*direction) + middle@ + decimal(
            *core_id as nat,
        ),
{
    let mut s = String::from_str("Could not retrieve ");
    s.append(direction_str(*direction));
    s.append(middle);
    push_decimal(&mut s, *core_id as u64);
    s
}

/// The error of a channel of a core that was expected and not found.
pub fn missing_channel(core_id: &u8, direction: &Direction) -> (r: SVGError)
    ensures
        r.error_kind matches SVGErrorKind::ManycoreMismatch(m) && m@ == missing_channel_message(
            *core_id,
            *direction,
        ),
{
    SVGError::new(
        SVGErrorKind::ManycoreMismatch(direction_message(direction, " channel for Core ", core_id)),
    )
}

/// The error of a source channel load of a core that was expected and not
/// found.
pub fn missing_source_load(core_id: &u8, direction: &Direction) -> (r: SVGError)
    ensures
        r.error_kind matches SVGErrorKind::ManycoreMismatch(m) && m@
            == missing_source_load_message(*core_id, *direction),
{
    SVGError::new(
        SVGErrorKind::ManycoreMismatch(
            direction_message(direction, " source channel load for Core ", core_id),
        ),
    )
}

} // verus!
