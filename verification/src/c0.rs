//! Elements of the C0 set.
//!
//! These control functions are represented in 7-bit codes by bit
//! combinations from `00/00` to `01/15`.
//!
//! It is assumed that even with no invoked C0 set, the control character
//! ESCAPE ([`ESC`]) is always available, and is represented by bit
//! combination `01/11`.
#![allow(non_snake_case)]

use vstd::prelude::*;

use crate::c0_model;
use crate::ControlFunction;

verus! {

/// Announcer sequence for the C0 set: designates the C0 set of control
/// functions as the active set of control functions.
pub fn ANNOUNCER_SEQUENCE() -> (r: &'static str)
    ensures
        r@ == seq!['\u{001B}', '\u{0021}', '\u{0040}'],
{
    proof {
        reveal_strlit("\u{001B}\u{0021}\u{0040}");
        assert("\u{001B}\u{0021}\u{0040}"@ =~= seq!['\u{001B}', '\u{0021}', '\u{0040}']);
    }
    "\u{001B}\u{0021}\u{0040}"
}

/// Acknowledge.
///
/// `ACK` is transmitted by a receiver as an affirmative response to the
/// sender.
pub fn ACK() -> (r: ControlFunction)
    ensures
        r@ == c0_model('\u{0006}'),
        r@.wf(),
{
    proof {
        reveal_strlit("\u{0006}");
    }
    ControlFunction::new_c0("\u{0006}")
}

/// Bell.
///
/// `BEL` is used when there is a need to call for attention; it may control
/// alarm or attention devices.
pub fn BEL() -> (r: ControlFunction)
    ensures
        r@ == c0_model('\u{0007}'),
        r@.wf(),
{
    proof {
        reveal_strlit("\u{0007}");
    }
    ControlFunction::new_c0("\u{0007}")
}

/// Backspace.
///
/// `BS` causes the active data position to be moved one character position
/// in the data component in the direction opposite to that of the implicit
/// movement.
pub fn BS() -> (r: ControlFunction)
    ensures
        r@ == c0_model('\u{0008}'),
        r@.wf(),
{
    proof {
        reveal_strlit("\u{0008}");
    }
    ControlFunction::new_c0("\u{0008}")
}

/// Cancel.
///
/// `CAN` is used to indicate that the data preceding it in the data stream
/// is in error.
pub fn CAN() -> (r: ControlFunction)
    ensures
        r@ == c0_model('\u{0018}'),
        r@.wf(),
{
    proof {
        reveal_strlit("\u{0018}");
    }
    ControlFunction::new_c0("\u{0018}")
}

/// Carriage Return.
///
/// `CR` moves the active position to the line home or line limit position
/// of the same line, depending on the device component select mode and the
/// implicit movement direction.
pub fn CR() -> (r: ControlFunction)
    ensures
        r@ == c0_model('\u{000D}'),
        r@.wf(),
{
    proof {
        reveal_strlit("\u{000D}");
    }
    ControlFunction::new_c0("\u{000D}")
}

/// Device Control One.
///
/// `DC1` is primarily intended for turning on or starting an ancillary
/// device.
pub fn DC1() -> (r: ControlFunction)
    ensures
        r@ == c0_model('\u{0011}'),
        r@.wf(),
{
    proof {
        reveal_strlit("\u{0011}");
    }
    ControlFunction::new_c0("\u{0011}")
}

/// Device Control Two.
///
/// `DC2` is primarily intended for turning on or starting an ancillary
/// device.
pub fn DC2() -> (r: ControlFunction)
    ensures
        r@ == c0_model('\u{0012}'),
        r@.wf(),
{
    proof {
        reveal_strlit("\u{0012}");
    }
    ControlFunction::new_c0("\u{0012}")
}

/// Device Control Three.
///
/// `DC3` is primarily intended for turning off or stopping an ancillary
/// device.
pub fn DC3() -> (r: ControlFunction)
    ensures
        r@ == c0_model('\u{0013}'),
        r@.wf(),
{
    proof {
        reveal_strlit("\u{0013}");
    }
    ControlFunction::new_c0("\u{0013}")
}

/// Device Control Four.
///
/// `DC4` is primarily intended for turning off, stopping or interrupting an
/// ancillary device.
pub fn DC4() -> (r: ControlFunction)
    ensures
        r@ == c0_model('\u{0014}'),
        r@.wf(),
{
    proof {
        reveal_strlit("\u{0014}");
    }
    ControlFunction::new_c0("\u{0014}")
}

/// Data Link Escape.
///
/// `DLE` is used exclusively to provide supplementary transmission control
/// functions.
pub fn DLE() -> (r: ControlFunction)
    ensures
        r@ == c0_model('\u{0010}'),
        r@.wf(),
{
    proof {
        reveal_strlit("\u{0010}");
    }
    ControlFunction::new_c0("\u{0010}")
}

/// End Of Medium.
///
/// `EM` is used to identify the physical end of a medium, or the end of the
/// used or wanted portion of it.
pub fn EM() -> (r: ControlFunction)
    ensures
        r@ == c0_model('\u{0019}'),
        r@.wf(),
{
    proof {
        reveal_strlit("\u{0019}");
    }
    ControlFunction::new_c0("\u{0019}")
}

/// Enquiry.
///
/// `ENQ` is transmitted by a sender as a request for a response from a
/// receiver.
pub fn ENQ() -> (r: ControlFunction)
    ensures
        r@ == c0_model('\u{0005}'),
        r@.wf(),
{
    proof {
        reveal_strlit("\u{0005}");
    }
    ControlFunction::new_c0("\u{0005}")
}

/// End Of Transmission.
///
/// `EOT` is used to indicate the conclusion of the transmission of one or
/// more texts.
pub fn EOT() -> (r: ControlFunction)
    ensures
        r@ == c0_model('\u{0004}'),
        r@.wf(),
{
    proof {
        reveal_strlit("\u{0004}");
    }
    ControlFunction::new_c0("\u{0004}")
}

/// Escape.
///
/// `ESC` is used for code extension purposes.  It causes the meanings of a
/// limited number of bit combinations following it in the data stream to be
/// changed.
pub fn ESC() -> (r: ControlFunction)
    ensures
        r@ == c0_model('\u{001B}'),
        r@.wf(),
{
    proof {
        reveal_strlit("\u{001B}");
    }
    ControlFunction::new_c0("\u{001B}")
}

/// End Of Transmission Block.
///
/// `ETB` is used to indicate the end of a block of data where the data are
/// divided into such blocks for transmission purposes.
pub fn ETB() -> (r: ControlFunction)
    ensures
        r@ == c0_model('\u{0017}'),
        r@.wf(),
{
    proof {
        reveal_strlit("\u{0017}");
    }
    ControlFunction::new_c0("\u{0017}")
}

/// End Of Text.
///
/// `ETX` is used to indicate the end of a text.
pub fn ETX() -> (r: ControlFunction)
    ensures
        r@ == c0_model('\u{0003}'),
        r@.wf(),
{
    proof {
        reveal_strlit("\u{0003}");
    }
    ControlFunction::new_c0("\u{0003}")
}

/// Form Feed.
///
/// `FF` causes the active presentation position to be moved to the
/// corresponding character position at the page home position of the next
/// form or page.
pub fn FF() -> (r: ControlFunction)
    ensures
        r@ == c0_model('\u{000C}'),
        r@.wf(),
{
    proof {
        reveal_strlit("\u{000C}");
    }
    ControlFunction::new_c0("\u{000C}")
}

/// Character Tabulation.
///
/// `HT` causes the active presentation position to be moved to the
/// following character tabulation stop.
pub fn HT() -> (r: ControlFunction)
    ensures
        r@ == c0_model('\u{0009}'),
        r@.wf(),
{
    proof {
        reveal_strlit("\u{0009}");
    }
    ControlFunction::new_c0("\u{0009}")
}

/// Information Separator One (US - Unit Separator).
///
/// `IS1` is used to separate and qualify data logically; it may delimit a
/// data item called a unit.
pub fn IS1() -> (r: ControlFunction)
    ensures
        r@ == c0_model('\u{001F}'),
        r@.wf(),
{
    proof {
        reveal_strlit("\u{001F}");
    }
    ControlFunction::new_c0("\u{001F}")
}

/// Information Separator Two (RS - Record Separator).
///
/// `IS2` is used to separate and qualify data logically; it may delimit a
/// data item called a record.
pub fn IS2() -> (r: ControlFunction)
    ensures
        r@ == c0_model('\u{001E}'),
        r@.wf(),
{
    proof {
        reveal_strlit("\u{001E}");
    }
    ControlFunction::new_c0("\u{001E}")
}

/// Information Separator Three (GS - Group Separator).
///
/// `IS3` is used to separate and qualify data logically; it may delimit a
/// data item called a group.
pub fn IS3() -> (r: ControlFunction)
    ensures
        r@ == c0_model('\u{001D}'),
        r@.wf(),
{
    proof {
        reveal_strlit("\u{001D}");
    }
    ControlFunction::new_c0("\u{001D}")
}

/// Information Separator Four (FS - File Separator).
///
/// `IS4` is used to separate and qualify data logically; it may delimit a
/// data item called a file.
pub fn IS4() -> (r: ControlFunction)
    ensures
        r@ == c0_model('\u{001C}'),
        r@.wf(),
{
    proof {
        reveal_strlit("\u{001C}");
    }
    ControlFunction::new_c0("\u{001C}")
}

/// Line Feed.
///
/// `LF` causes the active position to be moved to the corresponding
/// character position of the following line.
pub fn LF() -> (r: ControlFunction)
    ensures
        r@ == c0_model('\u{000A}'),
        r@.wf(),
{
    proof {
        reveal_strlit("\u{000A}");
    }
    ControlFunction::new_c0("\u{000A}")
}

/// Locking-Shift Zero.
///
/// `LS0` is used for code extension purposes in 8-bit environments; in
/// 7-bit environments Shift-In ([`SI`]) is used instead.
pub fn LS0() -> (r: ControlFunction)
    ensures
        r@ == c0_model('\u{000F}'),
        r@.wf(),
{
    proof {
        reveal_strlit("\u{000F}");
    }
    ControlFunction::new_c0("\u{000F}")
}

/// Locking-Shift One.
///
/// `LS1` is used for code extension purposes in 8-bit environments; in
/// 7-bit environments Shift-Out ([`SO`]) is used instead.
pub fn LS1() -> (r: ControlFunction)
    ensures
        r@ == c0_model('\u{000E}'),
        r@.wf(),
{
    proof {
        reveal_strlit("\u{000E}");
    }
    ControlFunction::new_c0("\u{000E}")
}

/// Negative Acknowledge.
///
/// `NAK` is transmitted by a receiver as a negative response to the sender.
pub fn NAK() -> (r: ControlFunction)
    ensures
        r@ == c0_model('\u{0015}'),
        r@.wf(),
{
    proof {
        reveal_strlit("\u{0015}");
    }
    ControlFunction::new_c0("\u{0015}")
}

/// Null.
///
/// `NUL` is used for media-fill or time-fill.
pub fn NUL() -> (r: ControlFunction)
    ensures
        r@ == c0_model('\u{0000}'),
        r@.wf(),
{
    proof {
        reveal_strlit("\u{0000}");
    }
    ControlFunction::new_c0("\u{0000}")
}

/// Shift-In.
///
/// `SI` is used for code extension purposes in 7-bit environments; in 8-bit
/// environments Locking-Shift Zero ([`LS0`]) is used instead.
pub fn SI() -> (r: ControlFunction)
    ensures
        r@ == c0_model('\u{000F}'),
        r@.wf(),
{
    proof {
        reveal_strlit("\u{000F}");
    }
    ControlFunction::new_c0("\u{000F}")
}

/// Shift-Out.
///
/// `SO` is used for code extension purposes in 7-bit environments; in 8-bit
/// environments Locking-Shift One ([`LS1`]) is used instead.
pub fn SO() -> (r: ControlFunction)
    ensures
        r@ == c0_model('\u{000E}'),
        r@.wf(),
{
    proof {
        reveal_strlit("\u{000E}");
    }
    ControlFunction::new_c0("\u{000E}")
}

/// Start of Heading.
///
/// `SOH` is used to indicate the beginning of a heading.
pub fn SOH() -> (r: ControlFunction)
    ensures
        r@ == c0_model('\u{0001}'),
        r@.wf(),
{
    proof {
        reveal_strlit("\u{0001}");
    }
    ControlFunction::new_c0("\u{0001}")
}

/// Start of Text.
///
/// `STX` is used to indicate the beginning of a text and the end of a
/// heading.
pub fn STX() -> (r: ControlFunction)
    ensures
        r@ == c0_model('\u{0002}'),
        r@.wf(),
{
    proof {
        reveal_strlit("\u{0002}");
    }
    ControlFunction::new_c0("\u{0002}")
}

/// Substitute.
///
/// `SUB` is used in the place of a character that has been found to be
/// invalid or in error.
pub fn SUB() -> (r: ControlFunction)
    ensures
        r@ == c0_model('\u{001A}'),
        r@.wf(),
{
    proof {
        reveal_strlit("\u{001A}");
    }
    ControlFunction::new_c0("\u{001A}")
}

/// Synchronous Idle.
///
/// `SYN` is used by a synchronous transmission system in the absence of any
/// other character to provide a signal from which synchronism may be
/// achieved or retained.
pub fn SYN() -> (r: ControlFunction)
    ensures
        r@ == c0_model('\u{0016}'),
        r@.wf(),
{
    proof {
        reveal_strlit("\u{0016}");
    }
    ControlFunction::new_c0("\u{0016}")
}

/// Line Tabulation.
///
/// `VT` causes the active presentation position to be moved to the
/// corresponding character position on the line at which the following line
/// tabulation stop is set.
pub fn VT() -> (r: ControlFunction)
    ensures
        r@ == c0_model('\u{000B}'),
        r@.wf(),
{
    proof {
        reveal_strlit("\u{000B}");
    }
    ControlFunction::new_c0("\u{000B}")
}

} // verus!
