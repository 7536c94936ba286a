//! Commands and the decoder that recognises them in accumulated bytes.
use vstd::prelude::*;
use crate::frame::Cmdbuf;
use crate::protocol::{
    CMD_CODE_OFF, CMD_CODE_ON, CMD_CODE_REBOOT, CMD_CODE_STATUS, CMD_MAGIC_END, CMD_MAGIC_START,
    FRAME_LEN,
};

verus! {

/// What a command asks the device to do with a port.
#[derive(Clone, Copy, Debug, PartialEq, Eq, Structural)]
pub enum Action {
    On,
    Off,
    Reboot,
    Status,
}

/// A decoded command: an action and the raw index of the port it targets.
///
/// The index is taken from the frame as it is; whether such a port exists is
/// decided only when the command is dispatched.
#[derive(Clone, Copy, Debug, PartialEq, Eq, Structural)]
pub struct Cmd {
    pub action: Action,
    pub port: u8,
}

/// Why a byte window is not a command.
#[derive(Clone, Copy, Debug, PartialEq, Eq, Structural)]
pub enum DecodeError {
    /// The window is not four bytes long or lacks a framing marker.
    FrameError,
    /// The window is framed correctly but its action code is not known.
    UnknownAction,
}

/// The action that an action code stands for, if any.
pub open spec fn action_of_code(code: u8) -> Option<Action> {
    if code == CMD_CODE_OFF {
        Some(Action::Off)
    } else if code == CMD_CODE_ON {
        Some(Action::On)
    } else if code == CMD_CODE_REBOOT {
        Some(Action::Reboot)
    } else if code == CMD_CODE_STATUS {
        Some(Action::Status)
    } else {
        None
    }
}

/// The name under which an action is echoed to the host.
pub open spec fn action_name(action: Action) -> Seq<char> {
    match action {
        Action::Off => "Off"@,
        Action::On => "On"@,
        Action::Reboot => "Reboot"@,
        Action::Status => "Status"@,
    }
}

/// `s` has the length of a frame and carries both framing markers.
pub open spec fn is_framed(s: Seq<u8>) -> bool {
    &&& s.len() == FRAME_LEN
    &&& s[0] == CMD_MAGIC_START
    &&& s[3] == CMD_MAGIC_END
}

/// `s` is a complete command frame: framed, with a known action code.
pub open spec fn is_valid_frame(s: Seq<u8>) -> bool {
    is_framed(s) && s[2] <= CMD_CODE_STATUS
}

/// The meaning of a byte window as a command.
pub open spec fn decode_spec(s: Seq<u8>) -> Result<Cmd, DecodeError> {
    if !is_framed(s) {
        Err(DecodeError::FrameError)
    } else {
        match action_of_code(s[2]) {
            Some(action) => Ok(Cmd { action, port: s[1] }),
            None => Err(DecodeError::UnknownAction),
        }
    }
}

/// A window decodes to a command exactly when it is a valid frame, and the
/// command then carries the frame's port byte and the action of its code.
pub proof fn lemma_decode_ok_iff_valid_frame(s: Seq<u8>)
    ensures
        decode_spec(s) is Ok <==> is_valid_frame(s),
        is_valid_frame(s) ==> decode_spec(s) == Ok::<Cmd, DecodeError>(
            Cmd { action: action_of_code(s[2])->Some_0, port: s[1] },
        ),
        decode_spec(s) == Err::<Cmd, DecodeError>(DecodeError::UnknownAction) <==> is_framed(s)
            && s[2] > CMD_CODE_STATUS,
        decode_spec(s) == Err::<Cmd, DecodeError>(DecodeError::FrameError) <==> !is_framed(s),
{
}

impl Action {
    /// Looks up the action of an action code.
    pub fn from_code(code: u8) -> (r: Option<Action>)
        ensures
            r == action_of_code(code),
    {
        if code == CMD_CODE_OFF {
            Some(Action::Off)
        } else if code == CMD_CODE_ON {
            Some(Action::On)
        } else if code == CMD_CODE_REBOOT {
            Some(Action::Reboot)
        } else if code == CMD_CODE_STATUS {
            Some(Action::Status)
        } else {
            None
        }
    }
}

/// Interprets a byte window as a command frame.
pub fn decode(slice: &[u8]) -> (r: Result<Cmd, DecodeError>)
    ensures
        r == decode_spec(slice@),
{
    if slice.len() != FRAME_LEN {
        return Err(DecodeError::FrameError);
    }
    if slice[0] != CMD_MAGIC_START || slice[3] != CMD_MAGIC_END {
        return Err(DecodeError::FrameError);
    }
    match Action::from_code(slice[2]) {
        Some(action) => Ok(Cmd { action, port: slice[1] }),
        None => Err(DecodeError::UnknownAction),
    }
}

impl Cmd {
    /// Decodes the bytes that `cmdbuf` has accumulated.
    pub fn from_cmdbuf(cmdbuf: &Cmdbuf) -> (r: Result<Self, DecodeError>)
        ensures
            r == decode_spec(cmdbuf@),
    {
        decode(cmdbuf.get())
    }

    /// The name of the command's action, as echoed to the host.
    pub fn repr(&self) -> (r: &'static str)
        ensures
            r@ == action_name(self.action),
    {
        match self.action {
            Action::Off => "Off",
            Action::On => "On",
            Action::Reboot => "Reboot",
            Action::Status => "Status",
        }
    }
}

} // verus!
