//! MIDI: what a call gives back where the library for it is not there.

use vstd::prelude::*;

verus! {

/// The status of a call that failed for reasons that are not known.
pub const AMEDIA_ERROR_UNKNOWN: i32 = -10000;

/// What a transfer gives back that failed.
pub const NOT_TRANSFERRED: i64 = -1;

/// A device of the MIDI library, by its address.
#[derive(Clone, Copy, PartialEq, Eq, Structural, Debug)]
pub struct AMidiDevice {
    pub address: u64,
}

/// A port that is written to, by its address.
#[derive(Clone, Copy, PartialEq, Eq, Structural, Debug)]
pub struct AMidiInputPort {
    pub address: u64,
}

/// A port that is read from, by its address.
#[derive(Clone, Copy, PartialEq, Eq, Structural, Debug)]
pub struct AMidiOutputPort {
    pub address: u64,
}

/// A status, and what the call put in its place for a result: an address, zero for
/// nothing, or nothing at all where there is no place.
#[derive(Clone, Copy, PartialEq, Eq, Structural, Debug)]
pub struct Opened {
    pub status: i32,
    pub address: Option<u64>,
}

/// What the library's call gave back, or what stands for it where the library is not
/// there: an unknown error, and nothing in the place for the result.
pub open spec fn opened(called: Option<Opened>, has_place: bool) -> Opened {
    match called {
        Some(result) => result,
        None => Opened {
            status: AMEDIA_ERROR_UNKNOWN,
            address: if has_place {
                Some(0)
            } else {
                None
            },
        },
    }
}

fn open_or_unknown(called: Option<Opened>, has_place: bool) -> (result: Opened)
    ensures
        result == opened(called, has_place),
{
    match called {
        Some(result) => result,
        None => Opened {
            status: AMEDIA_ERROR_UNKNOWN,
            address: if has_place {
                Some(0)
            } else {
                None
            },
        },
    }
}

/// The device of a Java object. `called` is what the library gave back, nothing where
/// it is not there.
#[allow(non_snake_case)]
pub fn AMidiDevice_fromJava(called: Option<Opened>, has_place: bool) -> (result: Opened)
    ensures
        result == opened(called, has_place),
{
    open_or_unknown(called, has_place)
}

/// Lets a device go.
#[allow(non_snake_case)]
pub fn AMidiDevice_release(called: Option<i32>) -> (status: i32)
    ensures
        status == (match called {
            Some(status) => status,
            None => AMEDIA_ERROR_UNKNOWN,
        }),
{
    match called {
        Some(status) => status,
        None => AMEDIA_ERROR_UNKNOWN,
    }
}

/// How many ports a device has that are written to: none without the library.
#[allow(non_snake_case)]
pub fn AMidiDevice_getNumInputPorts(called: Option<i64>) -> (count: i64)
    ensures
        count == (match called {
            Some(count) => count,
            None => 0,
        }),
{
    match called {
        Some(count) => count,
        None => 0,
    }
}

/// How many ports a device has that are read from: none without the library.
#[allow(non_snake_case)]
pub fn AMidiDevice_getNumOutputPorts(called: Option<i64>) -> (count: i64)
    ensures
        count == (match called {
            Some(count) => count,
            None => 0,
        }),
{
    match called {
        Some(count) => count,
        None => 0,
    }
}

/// Opens a port that is read from.
#[allow(non_snake_case)]
pub fn AMidiOutputPort_open(called: Option<Opened>, has_place: bool) -> (result: Opened)
    ensures
        result == opened(called, has_place),
{
    open_or_unknown(called, has_place)
}

/// Opens a port that is written to.
#[allow(non_snake_case)]
pub fn AMidiInputPort_open(called: Option<Opened>, has_place: bool) -> (result: Opened)
    ensures
        result == opened(called, has_place),
{
    open_or_unknown(called, has_place)
}

/// Sends bytes: how many were sent, below zero for an error.
#[allow(non_snake_case)]
pub fn AMidiInputPort_send(called: Option<i64>) -> (sent: i64)
    ensures
        sent == (match called {
            Some(sent) => sent,
            None => NOT_TRANSFERRED,
        }),
{
    match called {
        Some(sent) => sent,
        None => NOT_TRANSFERRED,
    }
}

/// What was received: the number of messages, below zero for an error, and the number
/// of bytes where there is a place for it.
#[derive(Clone, Copy, PartialEq, Eq, Structural, Debug)]
pub struct Received {
    pub messages: i64,
    pub bytes: Option<u64>,
}

/// Receives bytes: none without the library.
#[allow(non_snake_case)]
pub fn AMidiOutputPort_receive(called: Option<Received>, has_place: bool) -> (received: Received)
    ensures
        received == (match called {
            Some(received) => received,
            None => Received {
                messages: NOT_TRANSFERRED,
                bytes: if has_place {
                    Some(0)
                } else {
                    None
                },
            },
        }),
{
    match called {
        Some(received) => received,
        None => Received {
            messages: NOT_TRANSFERRED,
            bytes: if has_place {
                Some(0)
            } else {
                None
            },
        },
    }
}

/// Without the library a call fails with an unknown error and finds nothing; with it, what
/// it gave back is handed on as it is.
pub proof fn law_missing_library_finds_nothing(called: Opened, has_place: bool)
    ensures
        opened(Some(called), has_place) == called,
        opened(None, has_place).status == -10000,
        opened(None, true).address == Some(0u64),
        opened(None, false).address is None,
{
}

} // verus!
