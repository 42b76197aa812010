//! Connect and disconnect requests.
//!
//! A request runs in two steps around the platform: `plan` reads the state
//! that the adapter reports for the address and says what to do; after a
//! command was issued, `finish` turns its outcome into the status reported to
//! the user. The controller keeps no connection state of its own.

use vstd::prelude::*;

use crate::address::{address_text_of, parse_address, parsed_address};

verus! {

/// Failures that are reported to the user.
#[derive(PartialEq, Eq, Structural, Clone, Copy, Debug)]
pub enum BluetoothError {
    /// No Bluetooth adapter could be acquired or powered on.
    AdapterUnavailable,
    /// The address does not name a device known to the adapter.
    DeviceNotFound,
    /// The platform or the remote device refused the command.
    OperationRefused,
}

/// The two requests a user can make of a listed device.
#[derive(PartialEq, Eq, Structural, Clone, Copy, Debug)]
pub enum Command {
    Connect,
    Disconnect,
}

/// What the adapter reports for an address.
#[derive(PartialEq, Eq, Structural, Clone, Copy, Debug)]
pub enum DeviceState {
    /// The address resolves to no device.
    Unknown,
    Connected,
    Disconnected,
}

/// The status a finished request reports.
#[derive(PartialEq, Eq, Structural, Clone, Copy, Debug)]
pub enum Status {
    Connected,
    AlreadyConnected,
    Disconnected,
    AlreadyDisconnected,
}

/// What to do once the device's state is known.
#[derive(PartialEq, Eq, Structural, Clone, Copy, Debug)]
pub enum Action {
    /// Nothing: the device is already in the requested state.
    Report(Status),
    /// Issue the command to the device.
    Issue(Command),
}

/// The state a command brings a device to.
pub open spec fn target_state(c: Command) -> DeviceState {
    match c {
        Command::Connect => DeviceState::Connected,
        Command::Disconnect => DeviceState::Disconnected,
    }
}

/// The decision for a request, given the state the adapter reports.
pub open spec fn planned(c: Command, s: DeviceState) -> Result<Action, BluetoothError> {
    match s {
        DeviceState::Unknown => Err(BluetoothError::DeviceNotFound),
        _ => if s == target_state(c) {
            Ok(Action::Report(
                match c {
                    Command::Connect => Status::AlreadyConnected,
                    Command::Disconnect => Status::AlreadyDisconnected,
                },
            ))
        } else {
            Ok(Action::Issue(c))
        },
    }
}

/// The status once an issued command has returned, successfully or not.
pub open spec fn finished(c: Command, succeeded: bool) -> Result<Status, BluetoothError> {
    if succeeded {
        Ok(
            match c {
                Command::Connect => Status::Connected,
                Command::Disconnect => Status::Disconnected,
            },
        )
    } else {
        Err(BluetoothError::OperationRefused)
    }
}

/// The whole request: what it reports and the device's state afterwards,
/// where `succeeded` is how an issued command would return.
pub open spec fn request(c: Command, s: DeviceState, succeeded: bool) -> (Result<Status, BluetoothError>, DeviceState) {
    match planned(c, s) {
        Err(e) => (Err(e), s),
        Ok(Action::Report(st)) => (Ok(st), s),
        Ok(Action::Issue(cmd)) => if succeeded {
            (finished(cmd, true), target_state(cmd))
        } else {
            (finished(cmd, false), s)
        },
    }
}

/// Decides what a request does, given the state the adapter reports for the
/// device: an unknown device is an error, a device already in the requested
/// state is left alone, any other gets the command.
pub fn plan(c: Command, s: DeviceState) -> (r: Result<Action, BluetoothError>)
    ensures
        r == planned(c, s),
{
    match s {
        DeviceState::Unknown => Err(BluetoothError::DeviceNotFound),
        DeviceState::Connected => match c {
            Command::Connect => Ok(Action::Report(Status::AlreadyConnected)),
            Command::Disconnect => Ok(Action::Issue(Command::Disconnect)),
        },
        DeviceState::Disconnected => match c {
            Command::Connect => Ok(Action::Issue(Command::Connect)),
            Command::Disconnect => Ok(Action::Report(Status::AlreadyDisconnected)),
        },
    }
}

/// The status of a request whose command was issued: done, or refused.
pub fn finish(c: Command, succeeded: bool) -> (r: Result<Status, BluetoothError>)
    ensures
        r == finished(c, succeeded),
{
    if succeeded {
        match c {
            Command::Connect => Ok(Status::Connected),
            Command::Disconnect => Ok(Status::Disconnected),
        }
    } else {
        Err(BluetoothError::OperationRefused)
    }
}

/// The address a request names, read from its text form; text that names no
/// address names no device.
pub fn resolve_address(text: &str) -> (r: Result<[u8; 6], BluetoothError>)
    ensures
        r is Err <==> parsed_address(text@) is None,
        r is Err ==> r == Err::<[u8; 6], BluetoothError>(BluetoothError::DeviceNotFound),
        r is Ok ==> parsed_address(text@) == Some(r->Ok_0@),
        forall|b: [u8; 6]| #[trigger] address_text_of(b@) == text@ ==> r == Ok::<[u8; 6], BluetoothError>(b),
{
    match parse_address(text) {
        Some(b) => Ok(b),
        None => Err(BluetoothError::DeviceNotFound),
    }
}

/// The message shown for a status.
pub open spec fn status_text(s: Status) -> Seq<char> {
    match s {
        Status::Connected => "Connected"@,
        Status::AlreadyConnected => "Already connected"@,
        Status::Disconnected => "Disconnected"@,
        Status::AlreadyDisconnected => "Already disconnected"@,
    }
}

/// The message shown for an error.
pub open spec fn error_text(e: BluetoothError) -> Seq<char> {
    match e {
        BluetoothError::AdapterUnavailable => "No Bluetooth adapter available"@,
        BluetoothError::DeviceNotFound => "Device not found"@,
        BluetoothError::OperationRefused => "Operation refused"@,
    }
}

impl Status {
    /// The message shown to the user.
    pub fn message(&self) -> (r: &'static str)
        ensures
            r@ == status_text(*self),
    {
        match self {
            Status::Connected => "Connected",
            Status::AlreadyConnected => "Already connected",
            Status::Disconnected => "Disconnected",
            Status::AlreadyDisconnected => "Already disconnected",
        }
    }
}

impl BluetoothError {
    /// The message shown to the user.
    pub fn message(&self) -> (r: &'static str)
        ensures
            r@ == error_text(*self),
    {
        match self {
            BluetoothError::AdapterUnavailable => "No Bluetooth adapter available",
            BluetoothError::DeviceNotFound => "Device not found",
            BluetoothError::OperationRefused => "Operation refused",
        }
    }
}

/// Connecting is idempotent: a connected device asked to connect reports
/// that it already is, without error and without a change of state; so once
/// a request has left a device connected, a second one changes nothing.
pub proof fn connect_is_idempotent(s: DeviceState, first_ok: bool, second_ok: bool)
    ensures
        request(Command::Connect, DeviceState::Connected, second_ok)
            == (Ok::<Status, BluetoothError>(Status::AlreadyConnected), DeviceState::Connected),
        request(Command::Connect, s, first_ok).1 == DeviceState::Connected ==> request(
            Command::Connect,
            request(Command::Connect, s, first_ok).1,
            second_ok,
        ) == (Ok::<Status, BluetoothError>(Status::AlreadyConnected), DeviceState::Connected),
{
}

/// Disconnecting is idempotent: a disconnected device asked to disconnect
/// reports that it already is, without error and without a change of state;
/// so once a request has left a device disconnected, a second one changes
/// nothing.
pub proof fn disconnect_is_idempotent(s: DeviceState, first_ok: bool, second_ok: bool)
    ensures
        request(Command::Disconnect, DeviceState::Disconnected, second_ok)
            == (Ok::<Status, BluetoothError>(Status::AlreadyDisconnected), DeviceState::Disconnected),
        request(Command::Disconnect, s, first_ok).1 == DeviceState::Disconnected ==> request(
            Command::Disconnect,
            request(Command::Disconnect, s, first_ok).1,
            second_ok,
        ) == (Ok::<Status, BluetoothError>(Status::AlreadyDisconnected), DeviceState::Disconnected),
{
}

/// A request for an address that names no device reports `DeviceNotFound`
/// and leaves everything as it was, whichever the command.
pub proof fn unknown_device_is_reported(c: Command, ok: bool)
    ensures
        request(c, DeviceState::Unknown, ok)
            == (Err::<Status, BluetoothError>(BluetoothError::DeviceNotFound), DeviceState::Unknown),
{
}

} // verus!
