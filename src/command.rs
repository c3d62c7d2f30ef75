//! The agent's command channel: the controller posts `WM_USER + n` messages
//! to the target's main window with a fixed `wParam`; the agent's window
//! procedure answers them and forwards every other message.

use vstd::prelude::*;

use crate::process::{is_game_class, text_starts_with};

verus! {

/// `wParam` that marks a capture command ("WSPY").
pub const CAPTURE_WPARAM: usize = 0x57535059;

/// First private window message.
pub const WM_USER: u32 = 0x0400;

/// Acknowledgement that the diversions are installed; answered with 1.
pub const MSG_HOOKS_INSTALLED: u32 = 0x0401;

/// Request to re-install the diversions; answered with whether they are active.
pub const MSG_REINSTALL_HOOKS: u32 = 0x0402;

/// Status query; bit 0 = diversions active, bit 1 = ring mapped.
pub const MSG_QUERY_STATUS: u32 = 0x0403;

/// Last message of the reserved command range.
pub const MSG_RESERVED_LAST: u32 = 0x0408;

/// What the window procedure does with a message.
#[derive(Clone, Copy, Debug, PartialEq, Eq, Structural)]
pub enum CommandReply {
    /// Answer with this result.
    Reply(isize),
    /// Hand the message to the original window procedure.
    Forward,
}

/// The answer to message `msg` with `wparam`.
pub open spec fn spec_command_reply(msg: u32, wparam: usize, hooks_active: bool) -> CommandReply {
    if wparam != CAPTURE_WPARAM {
        CommandReply::Forward
    } else if msg == MSG_HOOKS_INSTALLED {
        CommandReply::Reply(1)
    } else if msg == MSG_REINSTALL_HOOKS {
        CommandReply::Reply(if hooks_active { 1 } else { 0 })
    } else if msg == MSG_QUERY_STATUS {
        CommandReply::Reply(if hooks_active { 3 } else { 2 })
    } else if WM_USER < msg <= MSG_RESERVED_LAST {
        CommandReply::Reply(0)
    } else {
        CommandReply::Forward
    }
}

/// Answers a capture command, consumes the rest of the reserved range, and
/// forwards every other message.
pub fn command_reply(msg: u32, wparam: usize, hooks_active: bool) -> (r: CommandReply)
    ensures
        r == spec_command_reply(msg, wparam, hooks_active),
{
    if wparam != CAPTURE_WPARAM {
        return CommandReply::Forward;
    }
    if msg == MSG_HOOKS_INSTALLED {
        CommandReply::Reply(1)
    } else if msg == MSG_REINSTALL_HOOKS {
        CommandReply::Reply(if hooks_active { 1 } else { 0 })
    } else if msg == MSG_QUERY_STATUS {
        let mut status: isize = 0;
        if hooks_active {
            status = status + 1;
        }
        status = status + 2;
        CommandReply::Reply(status)
    } else if WM_USER < msg && msg <= MSG_RESERVED_LAST {
        CommandReply::Reply(0)
    } else {
        CommandReply::Forward
    }
}

/// A top-level window of process `own_pid` whose class is the game's.
pub fn is_own_game_window(window_pid: u32, own_pid: u32, class: &str) -> (r: bool)
    ensures
        r == (window_pid == own_pid && is_game_class(class@)),
{
    window_pid == own_pid && text_starts_with(class, "GxWindow")
}

} // verus!
