//! The event unpacker: turns a status code returned by the terminal
//! library's poll or peek primitive, together with the raw notification
//! record it filled in, into one typed event. Status 0 means no event was
//! available, 1 a key press, 2 a resize; any other status (including a
//! negative library error) is unrecognized and surfaces as a typed error.

use vstd::prelude::*;

verus! {

/// The raw notification record, matching the terminal library's wire shape
/// field for field: type, modifier, key, code point, width, height
/// (1 + 1 + 2 + 4 + 4 + 4 = 16 bytes, in this order). It is filled by the
/// library immediately before unpacking and read once.
#[derive(Clone, Copy, Debug, PartialEq, Eq, Structural)]
pub struct raw_event {
    pub etype: u8,
    pub emod: u8,
    pub key: u16,
    pub ch: u32,
    pub w: i32,
    pub h: i32,
}

/// A typed input event: a key press with its modifier, key code and code
/// point, a resize with the new width and height, or nothing.
#[derive(Clone, Copy, Debug, PartialEq, Eq, Structural)]
pub enum event {
    key_event(u8, u16, u32),
    resize_event(i32, i32),
    no_event,
}

/// The error returned when the poll or peek primitive reports a status
/// outside the recognized set {0, 1, 2}; it carries that status.
#[derive(Clone, Copy, Debug, PartialEq, Eq, Structural)]
pub enum unpack_error {
    unrecognized_status(i32),
}

/// A raw record with every field zeroed, ready to be handed to the poll or
/// peek primitive to fill in.
pub fn nil_raw_event() -> (r: raw_event)
    ensures
        r == (raw_event { etype: 0, emod: 0, key: 0, ch: 0, w: 0, h: 0 }),
{
    raw_event { etype: 0, emod: 0, key: 0, ch: 0, w: 0, h: 0 }
}

/// The event denoted by a recognized status code and a raw record: fields
/// are copied verbatim from the record, never clamped or rewritten.
pub open spec fn event_of(ev_type: i32, ev: raw_event) -> event
    recommends
        0 <= ev_type <= 2,
{
    if ev_type == 0 {
        event::no_event
    } else if ev_type == 1 {
        event::key_event(ev.emod, ev.key, ev.ch)
    } else {
        event::resize_event(ev.w, ev.h)
    }
}

/// Unpack a recognized status code and its raw record into a typed event.
/// Callers that cannot rule out an unrecognized status use
/// [`try_unpack_event`], which rejects it instead of requiring it away.
pub fn unpack_event(ev_type: i32, ev: &raw_event) -> (r: event)
    requires
        0 <= ev_type <= 2,
    ensures
        r == event_of(ev_type, *ev),
{
    if ev_type == 0 {
        event::no_event
    } else if ev_type == 1 {
        event::key_event(ev.emod, ev.key, ev.ch)
    } else {
        event::resize_event(ev.w, ev.h)
    }
}

/// Unpack any status code: a recognized one (0, 1 or 2) yields its event,
/// exactly as [`unpack_event`] does; any other one — a library error code or
/// a status this library does not know — yields an error carrying it.
pub fn try_unpack_event(ev_type: i32, ev: &raw_event) -> (r: Result<event, unpack_error>)
    ensures
        0 <= ev_type <= 2 ==> r == Ok::<event, unpack_error>(event_of(ev_type, *ev)),
        !(0 <= ev_type <= 2) ==> r == Err::<event, unpack_error>(
            unpack_error::unrecognized_status(ev_type),
        ),
{
    if 0 <= ev_type && ev_type <= 2 {
        Ok(unpack_event(ev_type, ev))
    } else {
        Err(unpack_error::unrecognized_status(ev_type))
    }
}

} // verus!
