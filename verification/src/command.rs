//! Commands, typed request objects, and argument validation.
//!
//! Validation runs entirely before any network activity: a command
//! that needs a lump identifier is rejected here when none was given
//! or when the given text does not parse, so no request object — the
//! only thing the network layer acts on — ever exists for bad input.

use vstd::prelude::*;
use crate::lump_id::LumpId;
use crate::lump_id::spec_from_text;

verus! {

/// The four operations the client can issue.
#[derive(Clone, Copy, Debug, PartialEq, Eq, Structural)]
pub enum Command {
    /// Enumerate the lumps of a device.
    List,
    /// Fetch the value of one lump.
    Get,
    /// Fetch the metadata record of one lump.
    Head,
    /// Remove one lump.
    Delete,
}

/// A validation failure, detected before any network call.
#[derive(Clone, Copy, Debug, PartialEq, Eq, Structural)]
pub enum ArgumentError {
    /// The device identifier was empty.
    EmptyDeviceId,
    /// The command needs a lump identifier and none was given.
    MissingLumpId,
    /// The given lump identifier text does not parse.
    MalformedLumpId,
}

/// A validated request: the selected operation together with the
/// lump identifier it acts on, where it needs one.
#[derive(Clone, Copy, Debug, PartialEq, Eq, Structural)]
pub enum Request {
    /// Enumerate the lumps of a device.
    List,
    /// Fetch the value of the named lump.
    Get(LumpId),
    /// Fetch the metadata record of the named lump.
    Head(LumpId),
    /// Remove the named lump.
    Delete(LumpId),
}

/// A device identifier: a non-empty token naming a storage device on
/// the server. The server checks everything further.
#[derive(Clone, Debug)]
pub struct DeviceId {
    text: String,
}

impl View for DeviceId {
    type V = Seq<char>;

    closed spec fn view(&self) -> Seq<char> {
        self.text@
    }
}

impl DeviceId {
    /// A device identifier is never empty.
    pub closed spec fn wf(&self) -> bool {
        self.text@.len() > 0
    }

    /// Wraps a non-empty string as a device identifier; rejects the
    /// empty string. Any non-empty string is accepted, carried
    /// unchanged: the server checks everything further.
    pub fn new(text: String) -> (r: Result<DeviceId, ArgumentError>)
        ensures
            text@.len() == 0 <==> r == Err::<DeviceId, ArgumentError>(ArgumentError::EmptyDeviceId),
            text@.len() > 0 ==> (r matches Ok(d) && d@ == text@ && d.wf()),
    {
        if text.as_str().is_empty() {
            Err(ArgumentError::EmptyDeviceId)
        } else {
            Ok(DeviceId { text })
        }
    }

    /// The identifier as text.
    pub fn as_text(&self) -> (r: &str)
        ensures
            r@ == self@,
    {
        self.text.as_str()
    }
}

/// Whether a command needs a lump identifier: every command but an
/// enumeration does.
pub open spec fn needs_lump_id(cmd: Command) -> bool {
    cmd != Command::List
}

/// The request that a command and a parsed lump identifier select.
pub open spec fn request_of(cmd: Command, id: LumpId) -> Request {
    match cmd {
        Command::List => Request::List,
        Command::Get => Request::Get(id),
        Command::Head => Request::Head(id),
        Command::Delete => Request::Delete(id),
    }
}

/// Translates the selected command and the optional lump identifier
/// text into a typed request object.
///
/// A command that needs a lump identifier fails with an argument
/// error when none was given, or when the text does not parse; no
/// request object exists then, so nothing reaches the network. An
/// enumeration ignores the identifier text entirely.
pub fn validate(cmd: Command, lump_text: Option<&str>) -> (r: Result<Request, ArgumentError>)
    ensures
        cmd == Command::List ==> r == Ok::<Request, ArgumentError>(Request::List),
        needs_lump_id(cmd) && lump_text is None ==> r == Err::<Request, ArgumentError>(
            ArgumentError::MissingLumpId,
        ),
        needs_lump_id(cmd) ==> (lump_text matches Some(t) ==> match spec_from_text(t@) {
            Some(id) => r == Ok::<Request, ArgumentError>(request_of(cmd, id)),
            None => r == Err::<Request, ArgumentError>(ArgumentError::MalformedLumpId),
        }),
{
    match cmd {
        Command::List => Ok(Request::List),
        _ => match lump_text {
            None => Err(ArgumentError::MissingLumpId),
            Some(t) => match LumpId::from_text(t) {
                None => Err(ArgumentError::MalformedLumpId),
                Some(id) => Ok(
                    match cmd {
                        Command::List => Request::List,
                        Command::Get => Request::Get(id),
                        Command::Head => Request::Head(id),
                        Command::Delete => Request::Delete(id),
                    },
                ),
            },
        },
    }
}

} // verus!
