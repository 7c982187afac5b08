//! Elements of the C1 set.
//!
//! These control functions are represented in 7-bit codes by escape
//! sequences of the form `ESC Fe`, where `ESC` is represented by bit
//! combination `01/11` and `Fe` is represented by a bit combination from
//! `04/00` to `05/15`.
#![allow(non_snake_case)]

use vstd::prelude::*;

use crate::c1_model;
use crate::ControlFunction;

verus! {

/// Announcer sequence for C1: designates the C1 set of control functions as
/// the active set of control functions.
pub fn ANNOUNCER_SEQUENCE() -> (r: &'static str)
    ensures
        r@ == seq!['\u{001B}', '\u{0026}', '\u{0040}'],
{
    proof {
        reveal_strlit("\u{001B}\u{0026}\u{0040}");
        assert("\u{001B}\u{0026}\u{0040}"@ =~= seq!['\u{001B}', '\u{0026}', '\u{0040}']);
    }
    "\u{001B}\u{0026}\u{0040}"
}

/// Alternative announcer sequence for C1: designates the C1 set of control
/// functions as the active set of control functions.
pub fn ALTERNATIVE_ANNOUNCER_SEQUENCE() -> (r: &'static str)
    ensures
        r@ == seq!['\u{001B}', '\u{0022}', '\u{0046}'],
{
    proof {
        reveal_strlit("\u{001B}\u{0022}\u{0046}");
        assert("\u{001B}\u{0022}\u{0046}"@ =~= seq!['\u{001B}', '\u{0022}', '\u{0046}']);
    }
    "\u{001B}\u{0022}\u{0046}"
}

/// Application Program Command.
///
/// `APC` is used as the opening delimiter of a control string for
/// application program use, closed by the String Terminator ([`ST`]).
pub fn APC() -> (r: ControlFunction)
    ensures
        r@ == c1_model('\u{005F}'),
        r@.wf(),
{
    proof {
        reveal_strlit("\u{005F}");
    }
    ControlFunction::new_c1("\u{005F}")
}

/// Break Permitted Here.
///
/// `BPH` is used to indicate a point where a line break may occur when text
/// is formatted.
pub fn BPH() -> (r: ControlFunction)
    ensures
        r@ == c1_model('\u{0042}'),
        r@.wf(),
{
    proof {
        reveal_strlit("\u{0042}");
    }
    ControlFunction::new_c1("\u{0042}")
}

/// Cancel Character.
///
/// `CCH` is used to indicate that both the preceding graphic character in
/// the data stream and `CCH` itself are to be ignored.
pub fn CCH() -> (r: ControlFunction)
    ensures
        r@ == c1_model('\u{0054}'),
        r@.wf(),
{
    proof {
        reveal_strlit("\u{0054}");
    }
    ControlFunction::new_c1("\u{0054}")
}

/// Control Sequence Introducer.
///
/// `CSI` is used as the first character of a control sequence.
pub fn CSI() -> (r: ControlFunction)
    ensures
        r@ == c1_model('\u{005B}'),
        r@.wf(),
{
    proof {
        reveal_strlit("\u{005B}");
    }
    ControlFunction::new_c1("\u{005B}")
}

/// Device Control String.
///
/// `DCS` is used as the opening delimiter of a control string for device
/// control use, closed by the String Terminator ([`ST`]).
pub fn DCS() -> (r: ControlFunction)
    ensures
        r@ == c1_model('\u{0050}'),
        r@.wf(),
{
    proof {
        reveal_strlit("\u{0050}");
    }
    ControlFunction::new_c1("\u{0050}")
}

/// End Of Guarded Area.
///
/// `EPA` is used to indicate that the active presentation position is the
/// last of a string of protected character positions.
pub fn EPA() -> (r: ControlFunction)
    ensures
        r@ == c1_model('\u{0057}'),
        r@.wf(),
{
    proof {
        reveal_strlit("\u{0057}");
    }
    ControlFunction::new_c1("\u{0057}")
}

/// End Of Selected Area.
///
/// `ESA` is used to indicate that the active presentation position is the
/// last of a string of character positions eligible to be transmitted.
pub fn ESA() -> (r: ControlFunction)
    ensures
        r@ == c1_model('\u{0047}'),
        r@.wf(),
{
    proof {
        reveal_strlit("\u{0047}");
    }
    ControlFunction::new_c1("\u{0047}")
}

/// Character Tabulation With Justification.
///
/// `HTJ` causes the contents of the active field to be shifted forward so
/// that it ends at the character position preceding the following character
/// tabulation stop.
pub fn HTJ() -> (r: ControlFunction)
    ensures
        r@ == c1_model('\u{0049}'),
        r@.wf(),
{
    proof {
        reveal_strlit("\u{0049}");
    }
    ControlFunction::new_c1("\u{0049}")
}

/// Character Tabulation Set.
///
/// `HTS` causes a character tabulation stop to be set at the active
/// presentation position.
pub fn HTS() -> (r: ControlFunction)
    ensures
        r@ == c1_model('\u{0048}'),
        r@.wf(),
{
    proof {
        reveal_strlit("\u{0048}");
    }
    ControlFunction::new_c1("\u{0048}")
}

/// Message Waiting.
///
/// `MW` is used to set a message waiting indicator in the receiving device.
pub fn MW() -> (r: ControlFunction)
    ensures
        r@ == c1_model('\u{0055}'),
        r@.wf(),
{
    proof {
        reveal_strlit("\u{0055}");
    }
    ControlFunction::new_c1("\u{0055}")
}

/// No Break Here.
///
/// `NBH` is used to indicate a point where a line break shall not occur
/// when text is formatted.
pub fn NBH() -> (r: ControlFunction)
    ensures
        r@ == c1_model('\u{0043}'),
        r@.wf(),
{
    proof {
        reveal_strlit("\u{0043}");
    }
    ControlFunction::new_c1("\u{0043}")
}

/// Next Line.
///
/// `NEL` causes the active position to be moved to the line home or line
/// limit position of the following line.
pub fn NEL() -> (r: ControlFunction)
    ensures
        r@ == c1_model('\u{0045}'),
        r@.wf(),
{
    proof {
        reveal_strlit("\u{0045}");
    }
    ControlFunction::new_c1("\u{0045}")
}

/// Operating System Command.
///
/// `OSC` is used as the opening delimiter of a control string for operating
/// system use, closed by the String Terminator ([`ST`]).
pub fn OSC() -> (r: ControlFunction)
    ensures
        r@ == c1_model('\u{005D}'),
        r@.wf(),
{
    proof {
        reveal_strlit("\u{005D}");
    }
    ControlFunction::new_c1("\u{005D}")
}

/// Partial Line Forward.
///
/// `PLD` causes the active presentation position to be moved to the
/// corresponding position of an imaginary line with a partial offset in the
/// direction of the line progression.
pub fn PLD() -> (r: ControlFunction)
    ensures
        r@ == c1_model('\u{004B}'),
        r@.wf(),
{
    proof {
        reveal_strlit("\u{004B}");
    }
    ControlFunction::new_c1("\u{004B}")
}

/// Partial Line Backward.
///
/// `PLU` causes the active presentation position to be moved to the
/// corresponding position of an imaginary line with a partial offset
/// opposite to the line progression.
pub fn PLU() -> (r: ControlFunction)
    ensures
        r@ == c1_model('\u{004C}'),
        r@.wf(),
{
    proof {
        reveal_strlit("\u{004C}");
    }
    ControlFunction::new_c1("\u{004C}")
}

/// Privacy Message.
///
/// `PM` is used as the opening delimiter of a control string for privacy
/// message use, closed by the String Terminator ([`ST`]).
pub fn PM() -> (r: ControlFunction)
    ensures
        r@ == c1_model('\u{005E}'),
        r@.wf(),
{
    proof {
        reveal_strlit("\u{005E}");
    }
    ControlFunction::new_c1("\u{005E}")
}

/// Private Use One.
///
/// `PU1` is reserved for a function without standardized meaning for
/// private use as required.
pub fn PU1() -> (r: ControlFunction)
    ensures
        r@ == c1_model('\u{0051}'),
        r@.wf(),
{
    proof {
        reveal_strlit("\u{0051}");
    }
    ControlFunction::new_c1("\u{0051}")
}

/// Private Use Two.
///
/// `PU2` is reserved for a function without standardized meaning for
/// private use as required.
pub fn PU2() -> (r: ControlFunction)
    ensures
        r@ == c1_model('\u{0052}'),
        r@.wf(),
{
    proof {
        reveal_strlit("\u{0052}");
    }
    ControlFunction::new_c1("\u{0052}")
}

/// Reverse Line Feed.
///
/// `RI` causes the active position to be moved to the corresponding
/// character position of the preceding line.
pub fn RI() -> (r: ControlFunction)
    ensures
        r@ == c1_model('\u{004D}'),
        r@.wf(),
{
    proof {
        reveal_strlit("\u{004D}");
    }
    ControlFunction::new_c1("\u{004D}")
}

/// Single Character Introducer.
///
/// `SCI` and the bit combination following it are used to represent a
/// control function or a graphic character.
pub fn SCI() -> (r: ControlFunction)
    ensures
        r@ == c1_model('\u{005A}'),
        r@.wf(),
{
    proof {
        reveal_strlit("\u{005A}");
    }
    ControlFunction::new_c1("\u{005A}")
}

/// Start of String.
///
/// `SOS` is used as the opening delimiter of a control string, closed by
/// the String Terminator ([`ST`]).
pub fn SOS() -> (r: ControlFunction)
    ensures
        r@ == c1_model('\u{0058}'),
        r@.wf(),
{
    proof {
        reveal_strlit("\u{0058}");
    }
    ControlFunction::new_c1("\u{0058}")
}

/// Start of Guarded Area.
///
/// `SPA` is used to indicate that the active presentation position is the
/// first of a string of protected character positions.
pub fn SPA() -> (r: ControlFunction)
    ensures
        r@ == c1_model('\u{0056}'),
        r@.wf(),
{
    proof {
        reveal_strlit("\u{0056}");
    }
    ControlFunction::new_c1("\u{0056}")
}

/// Start of Selected Area.
///
/// `SSA` is used to indicate that the active presentation position is the
/// first of a string of character positions eligible to be transmitted.
pub fn SSA() -> (r: ControlFunction)
    ensures
        r@ == c1_model('\u{0046}'),
        r@.wf(),
{
    proof {
        reveal_strlit("\u{0046}");
    }
    ControlFunction::new_c1("\u{0046}")
}

/// Single-Shift Two.
///
/// `SS2` is used for code extension purposes.
pub fn SS2() -> (r: ControlFunction)
    ensures
        r@ == c1_model('\u{004E}'),
        r@.wf(),
{
    proof {
        reveal_strlit("\u{004E}");
    }
    ControlFunction::new_c1("\u{004E}")
}

/// Single-Shift Three.
///
/// `SS3` is used for code extension purposes.
pub fn SS3() -> (r: ControlFunction)
    ensures
        r@ == c1_model('\u{004F}'),
        r@.wf(),
{
    proof {
        reveal_strlit("\u{004F}");
    }
    ControlFunction::new_c1("\u{004F}")
}

/// String Terminator.
///
/// `ST` is used as the closing delimiter of a control string opened by
/// [`APC`], [`DCS`], [`OSC`], [`PM`], or [`SOS`].
pub fn ST() -> (r: ControlFunction)
    ensures
        r@ == c1_model('\u{005C}'),
        r@.wf(),
{
    proof {
        reveal_strlit("\u{005C}");
    }
    ControlFunction::new_c1("\u{005C}")
}

/// Set Transmit State.
///
/// `STS` is used to establish the transmit state in the receiving device.
pub fn STS() -> (r: ControlFunction)
    ensures
        r@ == c1_model('\u{0053}'),
        r@.wf(),
{
    proof {
        reveal_strlit("\u{0053}");
    }
    ControlFunction::new_c1("\u{0053}")
}

/// Line Tabulation Set.
///
/// `VTS` causes a line tabulation stop to be set at the active line.
pub fn VTS() -> (r: ControlFunction)
    ensures
        r@ == c1_model('\u{004A}'),
        r@.wf(),
{
    proof {
        reveal_strlit("\u{004A}");
    }
    ControlFunction::new_c1("\u{004A}")
}

} // verus!
