//! Control Strings.
//!
//! A control string is a string of bit combinations which may occur in the
//! data stream as a logical entity for control purposes.  It consists of an
//! opening delimiter, a command string or a character string, and the
//! terminating delimiter String Terminator ([`ST`][crate::c1::ST]).
//!
//! This module contains higher level functions to build such control
//! strings from the low-level delimiters of the [`c1`][crate::c1] module.

use vstd::prelude::*;

use crate::esc_char;

verus! {

/// Wraps the given text between the opening delimiter and the String
/// Terminator.
fn delimited_string(opening: &str, text: &str) -> (r: String)
    requires
        opening@.len() == 2,
    ensures
        r@ == opening@ + text@ + seq![esc_char(), '\u{005C}'],
{
    proof {
        reveal_strlit("\u{001B}\u{005C}");
    }
    let mut r = String::from_str(opening);
    r.append(text);
    r.append("\u{001B}\u{005C}");
    proof {
        assert(r@ =~= opening@ + text@ + seq![esc_char(), '\u{005C}']);
    }
    r
}

/// Creates a new Application Program Command.
///
/// The given command string is prefixed with [`APC`][crate::c1::APC] and
/// suffixed with [`ST`][crate::c1::ST].  The interpretation of the command
/// string depends on the relevant application program.
pub fn application_program_command(command_string: &str) -> (r: String)
    ensures
        r@ == seq![esc_char(), '\u{005F}'] + command_string@ + seq![esc_char(), '\u{005C}'],
{
    proof {
        reveal_strlit("\u{001B}\u{005F}");
        assert("\u{001B}\u{005F}"@ =~= seq![esc_char(), '\u{005F}']);
    }
    delimited_string("\u{001B}\u{005F}", command_string)
}

/// Creates a new Device Control String.
///
/// The given control string is prefixed with [`DCS`][crate::c1::DCS] and
/// suffixed with [`ST`][crate::c1::ST].  The command string represents
/// either commands for the receiving device, or status reports from the
/// sending device.
pub fn device_control_string(control_string: &str) -> (r: String)
    ensures
        r@ == seq![esc_char(), '\u{0050}'] + control_string@ + seq![esc_char(), '\u{005C}'],
{
    proof {
        reveal_strlit("\u{001B}\u{0050}");
        assert("\u{001B}\u{0050}"@ =~= seq![esc_char(), '\u{0050}']);
    }
    delimited_string("\u{001B}\u{0050}", control_string)
}

/// Creates a new Operating System Command.
///
/// The given system command is prefixed with [`OSC`][crate::c1::OSC] and
/// suffixed with [`ST`][crate::c1::ST].  The interpretation of the command
/// string depends on the relevant operating system.
pub fn operating_system_command(system_command: &str) -> (r: String)
    ensures
        r@ == seq![esc_char(), '\u{005D}'] + system_command@ + seq![esc_char(), '\u{005C}'],
{
    proof {
        reveal_strlit("\u{001B}\u{005D}");
        assert("\u{001B}\u{005D}"@ =~= seq![esc_char(), '\u{005D}']);
    }
    delimited_string("\u{001B}\u{005D}", system_command)
}

/// Creates a new Privacy Message.
///
/// The given message is prefixed with [`PM`][crate::c1::PM] and suffixed
/// with [`ST`][crate::c1::ST].  The interpretation of the message depends
/// on the relevant privacy discipline.
pub fn privacy_message(message: &str) -> (r: String)
    ensures
        r@ == seq![esc_char(), '\u{005E}'] + message@ + seq![esc_char(), '\u{005C}'],
{
    proof {
        reveal_strlit("\u{001B}\u{005E}");
        assert("\u{001B}\u{005E}"@ =~= seq![esc_char(), '\u{005E}']);
    }
    delimited_string("\u{001B}\u{005E}", message)
}

/// Creates a new Control String.
///
/// The given text is prefixed with [`SOS`][crate::c1::SOS] and suffixed
/// with [`ST`][crate::c1::ST].  The interpretation of the character string
/// depends on the application.
pub fn control_string(character_string: &str) -> (r: String)
    ensures
        r@ == seq![esc_char(), '\u{0058}'] + character_string@ + seq![esc_char(), '\u{005C}'],
{
    proof {
        reveal_strlit("\u{001B}\u{0058}");
        assert("\u{001B}\u{0058}"@ =~= seq![esc_char(), '\u{0058}']);
    }
    delimited_string("\u{001B}\u{0058}", character_string)
}

} // verus!
