//! Independent Control Functions.
//!
//! These control functions are represented in 7-bit codes by 2-character
//! escape sequences of the form `ESC Fs`, where `ESC` is represented by bit
//! combination `01/11` and `Fs` is represented by a bit combination from
//! `06/00` to `07/14`.
#![allow(non_snake_case)]

use vstd::prelude::*;

use crate::independent_model;
use crate::ControlFunction;

verus! {

/// Coding Method Delimiter.
///
/// `CMD` is used as the delimiter of a string of data coded according to
/// Standard ECMA-35, and to switch to a general level of control.
pub fn CMD() -> (r: ControlFunction)
    ensures
        r@ == independent_model('\u{0064}'),
        r@.wf(),
{
    proof {
        reveal_strlit("\u{0064}");
    }
    ControlFunction::new_independent_control_function("\u{0064}")
}

/// Disable Manual Input.
///
/// `DMI` causes the manual input facilities of a device to be disabled.
pub fn DMI() -> (r: ControlFunction)
    ensures
        r@ == independent_model('\u{0060}'),
        r@.wf(),
{
    proof {
        reveal_strlit("\u{0060}");
    }
    ControlFunction::new_independent_control_function("\u{0060}")
}

/// Enable Manual Input.
///
/// `EMI` is used to enable the manual input facilities of a device.
pub fn EMI() -> (r: ControlFunction)
    ensures
        r@ == independent_model('\u{0062}'),
        r@.wf(),
{
    proof {
        reveal_strlit("\u{0062}");
    }
    ControlFunction::new_independent_control_function("\u{0062}")
}

/// Interrupt.
///
/// `INT` is used to indicate to the receiving device that the current
/// process is to be interrupted.
pub fn INT() -> (r: ControlFunction)
    ensures
        r@ == independent_model('\u{0061}'),
        r@.wf(),
{
    proof {
        reveal_strlit("\u{0061}");
    }
    ControlFunction::new_independent_control_function("\u{0061}")
}

/// Locking-Shift One Right.
///
/// `LS1R` is used for code extension purposes.
pub fn LS1R() -> (r: ControlFunction)
    ensures
        r@ == independent_model('\u{007E}'),
        r@.wf(),
{
    proof {
        reveal_strlit("\u{007E}");
    }
    ControlFunction::new_independent_control_function("\u{007E}")
}

/// Locking-Shift Two.
///
/// `LS2` is used for code extension purposes.
pub fn LS2() -> (r: ControlFunction)
    ensures
        r@ == independent_model('\u{006E}'),
        r@.wf(),
{
    proof {
        reveal_strlit("\u{006E}");
    }
    ControlFunction::new_independent_control_function("\u{006E}")
}

/// Locking-Shift Two Right.
///
/// `LS2R` is used for code extension purposes.
pub fn LS2R() -> (r: ControlFunction)
    ensures
        r@ == independent_model('\u{007D}'),
        r@.wf(),
{
    proof {
        reveal_strlit("\u{007D}");
    }
    ControlFunction::new_independent_control_function("\u{007D}")
}

/// Locking-Shift Three.
///
/// `LS3` is used for code extension purposes.
pub fn LS3() -> (r: ControlFunction)
    ensures
        r@ == independent_model('\u{006F}'),
        r@.wf(),
{
    proof {
        reveal_strlit("\u{006F}");
    }
    ControlFunction::new_independent_control_function("\u{006F}")
}

/// Locking-Shift Three Right.
///
/// `LS3R` is used for code extension purposes.
pub fn LS3R() -> (r: ControlFunction)
    ensures
        r@ == independent_model('\u{007C}'),
        r@.wf(),
{
    proof {
        reveal_strlit("\u{007C}");
    }
    ControlFunction::new_independent_control_function("\u{007C}")
}

/// Reset to Initial State.
///
/// `RIS` causes a device to be reset to its initial state, the state it has
/// after it is made operational.
pub fn RIS() -> (r: ControlFunction)
    ensures
        r@ == independent_model('\u{0063}'),
        r@.wf(),
{
    proof {
        reveal_strlit("\u{0063}");
    }
    ControlFunction::new_independent_control_function("\u{0063}")
}

} // verus!
