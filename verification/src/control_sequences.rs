//! Control Sequences.
//!
//! A control sequence is a string of bit combinations starting with the
//! control function Control Sequence Introducer (`CSI`), followed by one or
//! more bit combinations representing parameters, if any, and by one or more
//! bit combinations identifying the control function.  The control function
//! `CSI` itself is an element of the [C1][crate::c1] set.
//!
//! As intended by the standard, notation of control functions is kept
//! identical to the definitions in the standard.  This means that functions
//! in this module will not follow the snake_case naming convention, but
//! instead follow the ECMA-48 standard.
#![allow(non_snake_case)]

use vstd::prelude::*;

use crate::modes::Mode;
use crate::sequence_model;
use crate::text::dec_of;
use crate::text::u32_to_dec;
use crate::ControlFunction;

verus! {

/// The given parameter value, or the default where none was passed.
pub open spec fn or_default<T>(s: Option<T>, d: T) -> T {
    match s {
        Some(v) => v,
        None => d,
    }
}

/// A parameter list of one entry.
fn params1(a: String) -> (r: Vec<String>)
    ensures
        r.deep_view() == seq![a@],
{
    let mut v: Vec<String> = Vec::new();
    v.push(a);
    proof {
        assert(v.deep_view() =~~= seq![a@]);
    }
    v
}

/// A parameter list of two entries.
fn params2(a: String, b: String) -> (r: Vec<String>)
    ensures
        r.deep_view() == seq![a@, b@],
{
    let mut v: Vec<String> = Vec::new();
    v.push(a);
    v.push(b);
    proof {
        assert(v.deep_view() =~~= seq![a@, b@]);
    }
    v
}

/// Cursor Backward Tabulation.
///
/// `CBT` causes the active presentation position to be moved to the
/// character position corresponding to the `n`-th preceding character
/// tabulation stop in the presentation component, according to the
/// character path.  Default value for `n` is `1`.
pub fn CBT(n: Option<u32>) -> (r: ControlFunction)
    ensures
        r@ == sequence_model(seq!['\u{005A}'], seq![dec_of(or_default(n, 1) as int)]),
        r@.wf(),
{
    proof {
        reveal_strlit("\u{005A}");
        assert("\u{005A}"@ =~= seq!['\u{005A}']);
    }
    let v = match n {
        Some(v) => v,
        None => 1,
    };
    ControlFunction::new_sequence("\u{005A}", params1(u32_to_dec(v)))
}

/// Cursor Character Absolute.
///
/// `CHA` causes the active presentation position to be moved to character
/// position `n` in the active line in the presentation component.  Default
/// value for `n` is `1`.
pub fn CHA(n: Option<u32>) -> (r: ControlFunction)
    ensures
        r@ == sequence_model(seq!['\u{0047}'], seq![dec_of(or_default(n, 1) as int)]),
        r@.wf(),
{
    proof {
        reveal_strlit("\u{0047}");
        assert("\u{0047}"@ =~= seq!['\u{0047}']);
    }
    let v = match n {
        Some(v) => v,
        None => 1,
    };
    ControlFunction::new_sequence("\u{0047}", params1(u32_to_dec(v)))
}

/// Cursor Forward Tabulation.
///
/// `CHT` causes the active presentation position to be moved to the
/// character position corresponding to the `n`-th following character
/// tabulation stop in the presentation component, according to the
/// character path.  Default value for `n` is `1`.
pub fn CHT(n: Option<u32>) -> (r: ControlFunction)
    ensures
        r@ == sequence_model(seq!['\u{0049}'], seq![dec_of(or_default(n, 1) as int)]),
        r@.wf(),
{
    proof {
        reveal_strlit("\u{0049}");
        assert("\u{0049}"@ =~= seq!['\u{0049}']);
    }
    let v = match n {
        Some(v) => v,
        None => 1,
    };
    ControlFunction::new_sequence("\u{0049}", params1(u32_to_dec(v)))
}

/// Cursor Next Line.
///
/// `CNL` causes the active presentation position to be moved to the first
/// character position of the `n`-th following line in the presentation
/// component.  Default value for `n` is `1`.
pub fn CNL(n: Option<u32>) -> (r: ControlFunction)
    ensures
        r@ == sequence_model(seq!['\u{0045}'], seq![dec_of(or_default(n, 1) as int)]),
        r@.wf(),
{
    proof {
        reveal_strlit("\u{0045}");
        assert("\u{0045}"@ =~= seq!['\u{0045}']);
    }
    let v = match n {
        Some(v) => v,
        None => 1,
    };
    ControlFunction::new_sequence("\u{0045}", params1(u32_to_dec(v)))
}

/// Cursor Preceding Line.
///
/// `CPL` causes the active presentation position to be moved to the first
/// character position of the `n`-th preceding line in the presentation
/// component.  Default value for `n` is `1`.
pub fn CPL(n: Option<u32>) -> (r: ControlFunction)
    ensures
        r@ == sequence_model(seq!['\u{0046}'], seq![dec_of(or_default(n, 1) as int)]),
        r@.wf(),
{
    proof {
        reveal_strlit("\u{0046}");
        assert("\u{0046}"@ =~= seq!['\u{0046}']);
    }
    let v = match n {
        Some(v) => v,
        None => 1,
    };
    ControlFunction::new_sequence("\u{0046}", params1(u32_to_dec(v)))
}

/// Active Position Report.
///
/// `CPR` is used to report the active position of the sending device as
/// residing at the `n`-th line position and the `m`-th character position.
/// Default value for `n` and `m` is `1`.
pub fn CPR(n: Option<u32>, m: Option<u32>) -> (r: ControlFunction)
    ensures
        r@ == sequence_model(
            seq!['\u{0052}'],
            seq![dec_of(or_default(n, 1) as int), dec_of(or_default(m, 1) as int)],
        ),
        r@.wf(),
{
    proof {
        reveal_strlit("\u{0052}");
        assert("\u{0052}"@ =~= seq!['\u{0052}']);
    }
    let a = match n {
        Some(v) => v,
        None => 1,
    };
    let b = match m {
        Some(v) => v,
        None => 1,
    };
    ControlFunction::new_sequence("\u{0052}", params2(u32_to_dec(a), u32_to_dec(b)))
}

/// Valid parameter values to the function [`CTC`].
#[derive(Clone, Copy, PartialEq, Eq, Debug)]
pub enum TabulationControl {
    /// A character tabulation stop is set at the active presentation
    /// position.
    SetCharacterTabulationStop,
    /// A line tabulation stop is set at the active line.
    SetLineTabulationStop,
    /// The character tabulation stop at the active presentation position is
    /// cleared.
    ClearCharacterTabulationStop,
    /// The line tabulation stop at the active line is cleared.
    ClearLineTabulationStop,
    /// All character tabulation stops in the active line are cleared.
    ClearCharacterTabulationStopsInLine,
    /// All character tabulation stops are cleared.
    ClearAllCharacterTabulationStops,
    /// All line tabulation stops are cleared.
    ClearAllLineTabulationStops,
}

impl TabulationControl {
    /// The numeric parameter value this variant stands for.
    pub open spec fn code(self) -> int {
        match self {
            TabulationControl::SetCharacterTabulationStop => 0,
            TabulationControl::SetLineTabulationStop => 1,
            TabulationControl::ClearCharacterTabulationStop => 2,
            TabulationControl::ClearLineTabulationStop => 3,
            TabulationControl::ClearCharacterTabulationStopsInLine => 4,
            TabulationControl::ClearAllCharacterTabulationStops => 5,
            TabulationControl::ClearAllLineTabulationStops => 6,
        }
    }

    /// The numeric parameter value this variant stands for.
    pub fn as_u32(self) -> (r: u32)
        ensures
            r as int == self.code(),
    {
        match self {
            TabulationControl::SetCharacterTabulationStop => 0,
            TabulationControl::SetLineTabulationStop => 1,
            TabulationControl::ClearCharacterTabulationStop => 2,
            TabulationControl::ClearLineTabulationStop => 3,
            TabulationControl::ClearCharacterTabulationStopsInLine => 4,
            TabulationControl::ClearAllCharacterTabulationStops => 5,
            TabulationControl::ClearAllLineTabulationStops => 6,
        }
    }
}

/// Cursor Tabulation Control.
///
/// `CTC` causes one or more tabulation stops to be set or cleared in the
/// presentation component, depending on the parameter value.  Default value
/// for `s` is [`TabulationControl::SetCharacterTabulationStop`].
pub fn CTC(s: Option<TabulationControl>) -> (r: ControlFunction)
    ensures
        r@ == sequence_model(
            seq!['\u{0057}'],
            seq![dec_of(or_default(s, TabulationControl::SetCharacterTabulationStop).code())],
        ),
        r@.wf(),
{
    proof {
        reveal_strlit("\u{0057}");
        assert("\u{0057}"@ =~= seq!['\u{0057}']);
    }
    let v = match s {
        Some(v) => v,
        None => TabulationControl::SetCharacterTabulationStop,
    };
    ControlFunction::new_sequence("\u{0057}", params1(u32_to_dec(v.as_u32())))
}

/// Cursor Left.
///
/// `CUB` causes the active presentation position to be moved leftwards in
/// the presentation component by `n` character positions.  Default value
/// for `n` is `1`.
pub fn CUB(n: Option<u32>) -> (r: ControlFunction)
    ensures
        r@ == sequence_model(seq!['\u{0044}'], seq![dec_of(or_default(n, 1) as int)]),
        r@.wf(),
{
    proof {
        reveal_strlit("\u{0044}");
        assert("\u{0044}"@ =~= seq!['\u{0044}']);
    }
    let v = match n {
        Some(v) => v,
        None => 1,
    };
    ControlFunction::new_sequence("\u{0044}", params1(u32_to_dec(v)))
}

/// Cursor Down.
///
/// `CUD` causes the active presentation position to be moved downwards in
/// the presentation component by `n` line positions.  Default value for `n`
/// is `1`.
pub fn CUD(n: Option<u32>) -> (r: ControlFunction)
    ensures
        r@ == sequence_model(seq!['\u{0042}'], seq![dec_of(or_default(n, 1) as int)]),
        r@.wf(),
{
    proof {
        reveal_strlit("\u{0042}");
        assert("\u{0042}"@ =~= seq!['\u{0042}']);
    }
    let v = match n {
        Some(v) => v,
        None => 1,
    };
    ControlFunction::new_sequence("\u{0042}", params1(u32_to_dec(v)))
}

/// Cursor Right.
///
/// `CUF` causes the active presentation position to be moved rightwards in
/// the presentation component by `n` character positions.  Default value
/// for `n` is `1`.
pub fn CUF(n: Option<u32>) -> (r: ControlFunction)
    ensures
        r@ == sequence_model(seq!['\u{0043}'], seq![dec_of(or_default(n, 1) as int)]),
        r@.wf(),
{
    proof {
        reveal_strlit("\u{0043}");
        assert("\u{0043}"@ =~= seq!['\u{0043}']);
    }
    let v = match n {
        Some(v) => v,
        None => 1,
    };
    ControlFunction::new_sequence("\u{0043}", params1(u32_to_dec(v)))
}

/// Cursor Position.
///
/// `CUP` causes the active presentation position to be moved in the
/// presentation component to the `n`-th line position according to the line
/// progression, and to the `m`-th character position according to the
/// character path.  Default value for `n` and `m` is `1`.
pub fn CUP(n: Option<u32>, m: Option<u32>) -> (r: ControlFunction)
    ensures
        r@ == sequence_model(
            seq!['\u{0048}'],
            seq![dec_of(or_default(n, 1) as int), dec_of(or_default(m, 1) as int)],
        ),
        r@.wf(),
{
    proof {
        reveal_strlit("\u{0048}");
        assert("\u{0048}"@ =~= seq!['\u{0048}']);
    }
    let a = match n {
        Some(v) => v,
        None => 1,
    };
    let b = match m {
        Some(v) => v,
        None => 1,
    };
    ControlFunction::new_sequence("\u{0048}", params2(u32_to_dec(a), u32_to_dec(b)))
}

/// Cursor Up.
///
/// `CUU` causes the active presentation position to be moved upwards in the
/// presentation component by `n` line positions.  Default value for `n` is
/// `1`.
pub fn CUU(n: Option<u32>) -> (r: ControlFunction)
    ensures
        r@ == sequence_model(seq!['\u{0041}'], seq![dec_of(or_default(n, 1) as int)]),
        r@.wf(),
{
    proof {
        reveal_strlit("\u{0041}");
        assert("\u{0041}"@ =~= seq!['\u{0041}']);
    }
    let v = match n {
        Some(v) => v,
        None => 1,
    };
    ControlFunction::new_sequence("\u{0041}", params1(u32_to_dec(v)))
}

/// Cursor Line Tabulation.
///
/// `CVT` causes the active presentation position to be moved to the
/// character position of the line corresponding to the `n`-th following
/// line tabulation stop in the presentation component.  Default value for
/// `n` is `1`.
pub fn CVT(n: Option<u32>) -> (r: ControlFunction)
    ensures
        r@ == sequence_model(seq!['\u{0059}'], seq![dec_of(or_default(n, 1) as int)]),
        r@.wf(),
{
    proof {
        reveal_strlit("\u{0059}");
        assert("\u{0059}"@ =~= seq!['\u{0059}']);
    }
    let v = match n {
        Some(v) => v,
        None => 1,
    };
    ControlFunction::new_sequence("\u{0059}", params1(u32_to_dec(v)))
}

/// Valid parameter values to the function [`DA`].
#[derive(Clone, Copy, PartialEq, Eq, Debug)]
pub enum DeviceAttributes {
    /// Request identifying device attributes from a device.
    Request,
    /// Device attributes identification code.
    Identify(u32),
}

impl DeviceAttributes {
    /// The numeric parameter value this variant stands for.
    pub open spec fn code(self) -> int {
        match self {
            DeviceAttributes::Request => 0,
            DeviceAttributes::Identify(x) => x as int,
        }
    }

    /// The numeric parameter value this variant stands for.
    pub fn as_u32(self) -> (r: u32)
        ensures
            r as int == self.code(),
    {
        match self {
            DeviceAttributes::Request => 0,
            DeviceAttributes::Identify(x) => x,
        }
    }
}

/// Device Attributes.
///
/// With a parameter [`DeviceAttributes::Identify`], `DA` is used to
/// identify the device which sends the `DA`.  With
/// [`DeviceAttributes::Request`], `DA` is used to request an identifying
/// `DA` from a device.  Default value for `s` is
/// [`DeviceAttributes::Request`].
pub fn DA(s: Option<DeviceAttributes>) -> (r: ControlFunction)
    ensures
        r@ == sequence_model(
            seq!['\u{0063}'],
            seq![dec_of(or_default(s, DeviceAttributes::Request).code())],
        ),
        r@.wf(),
{
    proof {
        reveal_strlit("\u{0063}");
        assert("\u{0063}"@ =~= seq!['\u{0063}']);
    }
    let v = match s {
        Some(v) => v,
        None => DeviceAttributes::Request,
    };
    ControlFunction::new_sequence("\u{0063}", params1(u32_to_dec(v.as_u32())))
}

/// Valid parameter values to the function [`DAQ`].
#[derive(Clone, Copy, PartialEq, Eq, Debug)]
pub enum AreaQualification {
    /// Unprotected and unguarded.
    UnprotectedUnguarded,
    /// Protected and guarded.
    ProtectedGuarded,
    /// Graphic character input.
    GraphicCharacterInput,
    /// Numeric input.
    NumericInput,
    /// Alphabetic input.
    AlphabeticInput,
    /// Input aligned on the last character position of the qualified area.
    InputAlignedRight,
    /// Fill with ZEROs.
    FillZeros,
    /// Set a character tabulation stop at the active presentation position
    /// to indicate the beginning of a field.
    SetCharacterTabulationStop,
    /// Protected and unguarded.
    ProtectedUnguarded,
    /// Fill with SPACEs.
    FillSpaces,
    /// Input aligned on the first character position of the qualified area.
    InputAlignedLeft,
    /// The order of the character positions in the input field is reversed.
    Reversed,
}

impl AreaQualification {
    /// The numeric parameter value this variant stands for.
    pub open spec fn code(self) -> int {
        match self {
            AreaQualification::UnprotectedUnguarded => 0,
            AreaQualification::ProtectedGuarded => 1,
            AreaQualification::GraphicCharacterInput => 2,
            AreaQualification::NumericInput => 3,
            AreaQualification::AlphabeticInput => 4,
            AreaQualification::InputAlignedRight => 5,
            AreaQualification::FillZeros => 6,
            AreaQualification::SetCharacterTabulationStop => 7,
            AreaQualification::ProtectedUnguarded => 8,
            AreaQualification::FillSpaces => 9,
            AreaQualification::InputAlignedLeft => 10,
            AreaQualification::Reversed => 11,
        }
    }

    /// The numeric parameter value this variant stands for.
    pub fn as_u32(self) -> (r: u32)
        ensures
            r as int == self.code(),
    {
        match self {
            AreaQualification::UnprotectedUnguarded => 0,
            AreaQualification::ProtectedGuarded => 1,
            AreaQualification::GraphicCharacterInput => 2,
            AreaQualification::NumericInput => 3,
            AreaQualification::AlphabeticInput => 4,
            AreaQualification::InputAlignedRight => 5,
            AreaQualification::FillZeros => 6,
            AreaQualification::SetCharacterTabulationStop => 7,
            AreaQualification::ProtectedUnguarded => 8,
            AreaQualification::FillSpaces => 9,
            AreaQualification::InputAlignedLeft => 10,
            AreaQualification::Reversed => 11,
        }
    }
}

/// Define Area Qualification.
///
/// `DAQ` is used to indicate that the active presentation position in the
/// presentation component is the first character position of a qualified
/// area.  Default value for `s` is
/// [`AreaQualification::UnprotectedUnguarded`].
pub fn DAQ(s: Option<AreaQualification>) -> (r: ControlFunction)
    ensures
        r@ == sequence_model(
            seq!['\u{006F}'],
            seq![dec_of(or_default(s, AreaQualification::UnprotectedUnguarded).code())],
        ),
        r@.wf(),
{
    proof {
        reveal_strlit("\u{006F}");
        assert("\u{006F}"@ =~= seq!['\u{006F}']);
    }
    let v = match s {
        Some(v) => v,
        None => AreaQualification::UnprotectedUnguarded,
    };
    ControlFunction::new_sequence("\u{006F}", params1(u32_to_dec(v.as_u32())))
}

/// Delete Character.
///
/// `DCH` causes the contents of the active position and, depending on the
/// character editing mode, the contents of the `n-1` preceding or following
/// character positions to be removed.  Default value for `n` is `1`.
pub fn DCH(n: Option<u32>) -> (r: ControlFunction)
    ensures
        r@ == sequence_model(seq!['\u{0050}'], seq![dec_of(or_default(n, 1) as int)]),
        r@.wf(),
{
    proof {
        reveal_strlit("\u{0050}");
        assert("\u{0050}"@ =~= seq!['\u{0050}']);
    }
    let v = match n {
        Some(v) => v,
        None => 1,
    };
    ControlFunction::new_sequence("\u{0050}", params1(u32_to_dec(v)))
}

/// Delete Line.
///
/// `DL` causes the contents of the active line and, depending on the line
/// editing mode, the contents of the `n-1` preceding or following lines to
/// be removed.  Default value for `n` is `1`.
pub fn DL(n: Option<u32>) -> (r: ControlFunction)
    ensures
        r@ == sequence_model(seq!['\u{004D}'], seq![dec_of(or_default(n, 1) as int)]),
        r@.wf(),
{
    proof {
        reveal_strlit("\u{004D}");
        assert("\u{004D}"@ =~= seq!['\u{004D}']);
    }
    let v = match n {
        Some(v) => v,
        None => 1,
    };
    ControlFunction::new_sequence("\u{004D}", params1(u32_to_dec(v)))
}

/// Valid parameter values to the function [`DSR`].
#[derive(Clone, Copy, PartialEq, Eq, Debug)]
pub enum DeviceStatusReport {
    /// The device is ready, no malfunction detected.
    Ready,
    /// The device is busy, another `DSR` must be requested later.
    BusyRepeat,
    /// The device is busy, another `DSR` will be sent later.
    BusyLater,
    /// Some malfunction detected, another `DSR` must be requested later.
    MalfunctionRepeat,
    /// Some malfunction detected, another `DSR` will be sent later.
    MalfunctionLater,
    /// A device status report is requested.
    RequestDeviceStatusReport,
    /// A report of the active position in the form of an Active Position
    /// Report ([`CPR`]) is requested.
    RequestActivePositionReport,
}

impl DeviceStatusReport {
    /// The numeric parameter value this variant stands for.
    pub open spec fn code(self) -> int {
        match self {
            DeviceStatusReport::Ready => 0,
            DeviceStatusReport::BusyRepeat => 1,
            DeviceStatusReport::BusyLater => 2,
            DeviceStatusReport::MalfunctionRepeat => 3,
            DeviceStatusReport::MalfunctionLater => 4,
            DeviceStatusReport::RequestDeviceStatusReport => 5,
            DeviceStatusReport::RequestActivePositionReport => 6,
        }
    }

    /// The numeric parameter value this variant stands for.
    pub fn as_u32(self) -> (r: u32)
        ensures
            r as int == self.code(),
    {
        match self {
            DeviceStatusReport::Ready => 0,
            DeviceStatusReport::BusyRepeat => 1,
            DeviceStatusReport::BusyLater => 2,
            DeviceStatusReport::MalfunctionRepeat => 3,
            DeviceStatusReport::MalfunctionLater => 4,
            DeviceStatusReport::RequestDeviceStatusReport => 5,
            DeviceStatusReport::RequestActivePositionReport => 6,
        }
    }
}

/// Device Status Report.
///
/// `DSR` is used either to report the status of the sending device or to
/// request a status report from the receiving device, depending on the
/// parameter value.  Default value for `s` is [`DeviceStatusReport::Ready`].
pub fn DSR(s: Option<DeviceStatusReport>) -> (r: ControlFunction)
    ensures
        r@ == sequence_model(
            seq!['\u{006E}'],
            seq![dec_of(or_default(s, DeviceStatusReport::Ready).code())],
        ),
        r@.wf(),
{
    proof {
        reveal_strlit("\u{006E}");
        assert("\u{006E}"@ =~= seq!['\u{006E}']);
    }
    let v = match s {
        Some(v) => v,
        None => DeviceStatusReport::Ready,
    };
    ControlFunction::new_sequence("\u{006E}", params1(u32_to_dec(v.as_u32())))
}

/// Dimension Text Area.
///
/// `DTA` is used to establish the dimensions of the text area for
/// subsequent pages: `n` specifies the dimension perpendicular to the line
/// orientation, `m` the dimension parallel to it.
pub fn DTA(n: u32, m: u32) -> (r: ControlFunction)
    ensures
        r@ == sequence_model(
            seq!['\u{0020}', '\u{0054}'],
            seq![dec_of(n as int), dec_of(m as int)],
        ),
        r@.wf(),
{
    proof {
        reveal_strlit("\u{0020}\u{0054}");
        assert("\u{0020}\u{0054}"@ =~= seq!['\u{0020}', '\u{0054}']);
    }
    ControlFunction::new_sequence("\u{0020}\u{0054}", params2(u32_to_dec(n), u32_to_dec(m)))
}

/// Valid parameter values to the function [`EA`].
#[derive(Clone, Copy, PartialEq, Eq, Debug)]
pub enum EraseArea {
    /// Erase from the active position until the end of the qualified area.
    ActivePositionToEnd,
    /// Erase from the beginning of the qualified area until (including) the
    /// active position.
    BeginToActivePosition,
    /// Erase all contents from the beginning until the end of the qualified
    /// area.
    BeginToEnd,
}

impl EraseArea {
    /// The numeric parameter value this variant stands for.
    pub open spec fn code(self) -> int {
        match self {
            EraseArea::ActivePositionToEnd => 0,
            EraseArea::BeginToActivePosition => 1,
            EraseArea::BeginToEnd => 2,
        }
    }

    /// The numeric parameter value this variant stands for.
    pub fn as_u32(self) -> (r: u32)
        ensures
            r as int == self.code(),
    {
        match self {
            EraseArea::ActivePositionToEnd => 0,
            EraseArea::BeginToActivePosition => 1,
            EraseArea::BeginToEnd => 2,
        }
    }
}

/// Erase in Area.
///
/// `EA` causes some or all character positions in the active qualified area
/// to be put into the erased state, depending on the parameter value.
/// Default value for `s` is [`EraseArea::ActivePositionToEnd`].
pub fn EA(s: Option<EraseArea>) -> (r: ControlFunction)
    ensures
        r@ == sequence_model(
            seq!['\u{004F}'],
            seq![dec_of(or_default(s, EraseArea::ActivePositionToEnd).code())],
        ),
        r@.wf(),
{
    proof {
        reveal_strlit("\u{004F}");
        assert("\u{004F}"@ =~= seq!['\u{004F}']);
    }
    let v = match s {
        Some(v) => v,
        None => EraseArea::ActivePositionToEnd,
    };
    ControlFunction::new_sequence("\u{004F}", params1(u32_to_dec(v.as_u32())))
}

/// Erase Character.
///
/// `ECH` causes the active presentation position and the `n-1` following
/// character positions to be put into the erased state.  Default value for
/// `n` is `1`.
pub fn ECH(n: Option<u32>) -> (r: ControlFunction)
    ensures
        r@ == sequence_model(seq!['\u{0058}'], seq![dec_of(or_default(n, 1) as int)]),
        r@.wf(),
{
    proof {
        reveal_strlit("\u{0058}");
        assert("\u{0058}"@ =~= seq!['\u{0058}']);
    }
    let v = match n {
        Some(v) => v,
        None => 1,
    };
    ControlFunction::new_sequence("\u{0058}", params1(u32_to_dec(v)))
}

/// Valid parameter values to the function [`ED`].
#[derive(Clone, Copy, PartialEq, Eq, Debug)]
pub enum ErasePage {
    /// Erase from the active position until the end of the page.
    ActivePositionToEnd,
    /// Erase from the beginning of the page until (including) the active
    /// position.
    BeginToActivePosition,
    /// Erase all contents from the beginning until the end of the page.
    BeginToEnd,
}

impl ErasePage {
    /// The numeric parameter value this variant stands for.
    pub open spec fn code(self) -> int {
        match self {
            ErasePage::ActivePositionToEnd => 0,
            ErasePage::BeginToActivePosition => 1,
            ErasePage::BeginToEnd => 2,
        }
    }

    /// The numeric parameter value this variant stands for.
    pub fn as_u32(self) -> (r: u32)
        ensures
            r as int == self.code(),
    {
        match self {
            ErasePage::ActivePositionToEnd => 0,
            ErasePage::BeginToActivePosition => 1,
            ErasePage::BeginToEnd => 2,
        }
    }
}

/// Erase In Page.
///
/// `ED` causes some or all character positions of the active page to be put
/// into the erased state, depending on the parameter value.  Default value
/// for `s` is [`ErasePage::ActivePositionToEnd`].
pub fn ED(s: Option<ErasePage>) -> (r: ControlFunction)
    ensures
        r@ == sequence_model(
            seq!['\u{004A}'],
            seq![dec_of(or_default(s, ErasePage::ActivePositionToEnd).code())],
        ),
        r@.wf(),
{
    proof {
        reveal_strlit("\u{004A}");
        assert("\u{004A}"@ =~= seq!['\u{004A}']);
    }
    let v = match s {
        Some(v) => v,
        None => ErasePage::ActivePositionToEnd,
    };
    ControlFunction::new_sequence("\u{004A}", params1(u32_to_dec(v.as_u32())))
}

/// Valid parameter values to the function [`EF`].
#[derive(Clone, Copy, PartialEq, Eq, Debug)]
pub enum EraseField {
    /// Erase from the active position until the end of the field.
    ActivePositionToEnd,
    /// Erase from the beginning of the field until (including) the active
    /// position.
    BeginToActivePosition,
    /// Erase all contents from the beginning until the end of the field.
    BeginToEnd,
}

impl EraseField {
    /// The numeric parameter value this variant stands for.
    pub open spec fn code(self) -> int {
        match self {
            EraseField::ActivePositionToEnd => 0,
            EraseField::BeginToActivePosition => 1,
            EraseField::BeginToEnd => 2,
        }
    }

    /// The numeric parameter value this variant stands for.
    pub fn as_u32(self) -> (r: u32)
        ensures
            r as int == self.code(),
    {
        match self {
            EraseField::ActivePositionToEnd => 0,
            EraseField::BeginToActivePosition => 1,
            EraseField::BeginToEnd => 2,
        }
    }
}

/// Erase In Field.
///
/// `EF` causes some or all character positions of the active field to be
/// put into the erased state, depending on the parameter value.  Default
/// value for `s` is [`EraseField::ActivePositionToEnd`].
pub fn EF(s: Option<EraseField>) -> (r: ControlFunction)
    ensures
        r@ == sequence_model(
            seq!['\u{004E}'],
            seq![dec_of(or_default(s, EraseField::ActivePositionToEnd).code())],
        ),
        r@.wf(),
{
    proof {
        reveal_strlit("\u{004E}");
        assert("\u{004E}"@ =~= seq!['\u{004E}']);
    }
    let v = match s {
        Some(v) => v,
        None => EraseField::ActivePositionToEnd,
    };
    ControlFunction::new_sequence("\u{004E}", params1(u32_to_dec(v.as_u32())))
}

/// Valid parameter values to the function [`EL`].
#[derive(Clone, Copy, PartialEq, Eq, Debug)]
pub enum EraseLine {
    /// Erase from the active position until the end of the line.
    ActivePositionToEnd,
    /// Erase from the beginning of the line until (including) the active
    /// position.
    BeginToActivePosition,
    /// Erase all contents from the beginning until the end of the line.
    BeginToEnd,
}

impl EraseLine {
    /// The numeric parameter value this variant stands for.
    pub open spec fn code(self) -> int {
        match self {
            EraseLine::ActivePositionToEnd => 0,
            EraseLine::BeginToActivePosition => 1,
            EraseLine::BeginToEnd => 2,
        }
    }

    /// The numeric parameter value this variant stands for.
    pub fn as_u32(self) -> (r: u32)
        ensures
            r as int == self.code(),
    {
        match self {
            EraseLine::ActivePositionToEnd => 0,
            EraseLine::BeginToActivePosition => 1,
            EraseLine::BeginToEnd => 2,
        }
    }
}

/// Erase In Line.
///
/// `EL` causes some or all character positions of the active line to be put
/// into the erased state, depending on the parameter value.  Default value
/// for `s` is [`EraseLine::ActivePositionToEnd`].
pub fn EL(s: Option<EraseLine>) -> (r: ControlFunction)
    ensures
        r@ == sequence_model(
            seq!['\u{004B}'],
            seq![dec_of(or_default(s, EraseLine::ActivePositionToEnd).code())],
        ),
        r@.wf(),
{
    proof {
        reveal_strlit("\u{004B}");
        assert("\u{004B}"@ =~= seq!['\u{004B}']);
    }
    let v = match s {
        Some(v) => v,
        None => EraseLine::ActivePositionToEnd,
    };
    ControlFunction::new_sequence("\u{004B}", params1(u32_to_dec(v.as_u32())))
}

/// Function Key.
///
/// `FNK` is a control function in which the parameter value identifies the
/// function key which has been operated.
pub fn FNK(n: u32) -> (r: ControlFunction)
    ensures
        r@ == sequence_model(seq!['\u{0020}', '\u{0057}'], seq![dec_of(n as int)]),
        r@.wf(),
{
    proof {
        reveal_strlit("\u{0020}\u{0057}");
        assert("\u{0020}\u{0057}"@ =~= seq!['\u{0020}', '\u{0057}']);
    }
    ControlFunction::new_sequence("\u{0020}\u{0057}", params1(u32_to_dec(n)))
}

/// Valid parameter values to the function [`FNT`].
#[derive(Clone, Copy, PartialEq, Eq, Debug)]
pub enum Font {
    /// Primary font.
    Primary,
    /// First alternative font.
    Alternative1,
    /// Second alternative font.
    Alternative2,
    /// Third alternative font.
    Alternative3,
    /// Fourth alternative font.
    Alternative4,
    /// Fifth alternative font.
    Alternative5,
    /// Sixth alternative font.
    Alternative6,
    /// Seventh alternative font.
    Alternative7,
    /// Eighth alternative font.
    Alternative8,
    /// Ninth alternative font.
    Alternative9,
}

impl Font {
    /// The numeric parameter value this variant stands for.
    pub open spec fn code(self) -> int {
        match self {
            Font::Primary => 0,
            Font::Alternative1 => 1,
            Font::Alternative2 => 2,
            Font::Alternative3 => 3,
            Font::Alternative4 => 4,
            Font::Alternative5 => 5,
            Font::Alternative6 => 6,
            Font::Alternative7 => 7,
            Font::Alternative8 => 8,
            Font::Alternative9 => 9,
        }
    }

    /// The numeric parameter value this variant stands for.
    pub fn as_u32(self) -> (r: u32)
        ensures
            r as int == self.code(),
    {
        match self {
            Font::Primary => 0,
            Font::Alternative1 => 1,
            Font::Alternative2 => 2,
            Font::Alternative3 => 3,
            Font::Alternative4 => 4,
            Font::Alternative5 => 5,
            Font::Alternative6 => 6,
            Font::Alternative7 => 7,
            Font::Alternative8 => 8,
            Font::Alternative9 => 9,
        }
    }
}

/// Font Selection.
///
/// `FNT` is used to identify the character font to be selected as primary
/// or alternative font by subsequent occurrences of Select Graphic
/// Rendition ([`SGR`]): `s` specifies the primary or alternative font
/// concerned, `t` identifies the character font according to a register.
/// Default value for `s` is [`Font::Primary`], and for `t` is `0`.
pub fn FNT(s: Option<Font>, t: Option<u32>) -> (r: ControlFunction)
    ensures
        r@ == sequence_model(
            seq!['\u{0020}', '\u{0044}'],
            seq![dec_of(or_default(s, Font::Primary).code()), dec_of(or_default(t, 0) as int)],
        ),
        r@.wf(),
{
    proof {
        reveal_strlit("\u{0020}\u{0044}");
        assert("\u{0020}\u{0044}"@ =~= seq!['\u{0020}', '\u{0044}']);
    }
    let a = match s {
        Some(v) => v,
        None => Font::Primary,
    };
    let b = match t {
        Some(v) => v,
        None => 0,
    };
    ControlFunction::new_sequence(
        "\u{0020}\u{0044}",
        params2(u32_to_dec(a.as_u32()), u32_to_dec(b)),
    )
}

/// Valid parameter values to the function [`GCC`].
#[derive(Clone, Copy, PartialEq, Eq, Debug)]
pub enum GraphicCharacterCombination {
    /// Combine the following two graphic characters into a single graphic
    /// symbol.
    CombineTwo,
    /// Combine all following graphic characters, until the occurrence of
    /// [`GraphicCharacterCombination::EndOfCombination`], into a single
    /// graphic symbol.
    StartOfCombination,
    /// Combine all preceding graphic characters, starting from
    /// [`GraphicCharacterCombination::StartOfCombination`], into a single
    /// graphic symbol.
    EndOfCombination,
}

impl GraphicCharacterCombination {
    /// The numeric parameter value this variant stands for.
    pub open spec fn code(self) -> int {
        match self {
            GraphicCharacterCombination::CombineTwo => 0,
            GraphicCharacterCombination::StartOfCombination => 1,
            GraphicCharacterCombination::EndOfCombination => 2,
        }
    }

    /// The numeric parameter value this variant stands for.
    pub fn as_u32(self) -> (r: u32)
        ensures
            r as int == self.code(),
    {
        match self {
            GraphicCharacterCombination::CombineTwo => 0,
            GraphicCharacterCombination::StartOfCombination => 1,
            GraphicCharacterCombination::EndOfCombination => 2,
        }
    }
}

/// Graphic Character Combination.
///
/// `GCC` is used to indicate that two or more graphic characters are to be
/// imaged as one single graphic symbol.  Default value for `s` is
/// [`GraphicCharacterCombination::CombineTwo`].
pub fn GCC(s: Option<GraphicCharacterCombination>) -> (r: ControlFunction)
    ensures
        r@ == sequence_model(
            seq!['\u{0020}', '\u{005F}'],
            seq![dec_of(or_default(s, GraphicCharacterCombination::CombineTwo).code())],
        ),
        r@.wf(),
{
    proof {
        reveal_strlit("\u{0020}\u{005F}");
        assert("\u{0020}\u{005F}"@ =~= seq!['\u{0020}', '\u{005F}']);
    }
    let v = match s {
        Some(v) => v,
        None => GraphicCharacterCombination::CombineTwo,
    };
    ControlFunction::new_sequence("\u{0020}\u{005F}", params1(u32_to_dec(v.as_u32())))
}

/// Graphic Size Modification.
///
/// `GSM` is used to modify for subsequent text the height and/or the width
/// of all primary and alternative fonts.  Default value for `h` and `w` is
/// `100`.
pub fn GSM(h: Option<u32>, w: Option<u32>) -> (r: ControlFunction)
    ensures
        r@ == sequence_model(
            seq!['\u{0020}', '\u{0042}'],
            seq![dec_of(or_default(h, 100) as int), dec_of(or_default(w, 100) as int)],
        ),
        r@.wf(),
{
    proof {
        reveal_strlit("\u{0020}\u{0042}");
        assert("\u{0020}\u{0042}"@ =~= seq!['\u{0020}', '\u{0042}']);
    }
    let a = match h {
        Some(v) => v,
        None => 100,
    };
    let b = match w {
        Some(v) => v,
        None => 100,
    };
    ControlFunction::new_sequence("\u{0020}\u{0042}", params2(u32_to_dec(a), u32_to_dec(b)))
}

/// Graphic Size Selection.
///
/// `GSS` is used to establish for subsequent text the height and the width
/// of all primary and alternative fonts; `n` specifies the height.
pub fn GSS(n: u32) -> (r: ControlFunction)
    ensures
        r@ == sequence_model(seq!['\u{0020}', '\u{0043}'], seq![dec_of(n as int)]),
        r@.wf(),
{
    proof {
        reveal_strlit("\u{0020}\u{0043}");
        assert("\u{0020}\u{0043}"@ =~= seq!['\u{0020}', '\u{0043}']);
    }
    ControlFunction::new_sequence("\u{0020}\u{0043}", params1(u32_to_dec(n)))
}

/// Character Position Absolute.
///
/// `HPA` causes the active data position to be moved to character position
/// `n` in the active line.  Default value for `n` is `1`.
pub fn HPA(n: Option<u32>) -> (r: ControlFunction)
    ensures
        r@ == sequence_model(seq!['\u{0060}'], seq![dec_of(or_default(n, 1) as int)]),
        r@.wf(),
{
    proof {
        reveal_strlit("\u{0060}");
        assert("\u{0060}"@ =~= seq!['\u{0060}']);
    }
    let v = match n {
        Some(v) => v,
        None => 1,
    };
    ControlFunction::new_sequence("\u{0060}", params1(u32_to_dec(v)))
}

/// Character Position Backward.
///
/// `HPB` causes the active data position to be moved by `n` character
/// positions in the data component in the direction opposite to that of the
/// character progression.  Default value for `n` is `1`.
pub fn HPB(n: Option<u32>) -> (r: ControlFunction)
    ensures
        r@ == sequence_model(seq!['\u{006A}'], seq![dec_of(or_default(n, 1) as int)]),
        r@.wf(),
{
    proof {
        reveal_strlit("\u{006A}");
        assert("\u{006A}"@ =~= seq!['\u{006A}']);
    }
    let v = match n {
        Some(v) => v,
        None => 1,
    };
    ControlFunction::new_sequence("\u{006A}", params1(u32_to_dec(v)))
}

/// Character Position Forward.
///
/// `HPR` causes the active data position to be moved by `n` character
/// positions in the data component in the direction of the character
/// progression.  Default value for `n` is `1`.
pub fn HPR(n: Option<u32>) -> (r: ControlFunction)
    ensures
        r@ == sequence_model(seq!['\u{0061}'], seq![dec_of(or_default(n, 1) as int)]),
        r@.wf(),
{
    proof {
        reveal_strlit("\u{0061}");
        assert("\u{0061}"@ =~= seq!['\u{0061}']);
    }
    let v = match n {
        Some(v) => v,
        None => 1,
    };
    ControlFunction::new_sequence("\u{0061}", params1(u32_to_dec(v)))
}

/// Character And Line Position.
///
/// `HVP` causes the active data position to be moved in the data component
/// to the `n`-th line position and the `m`-th character position.  Default
/// value for `n` and `m` is `1`.
pub fn HVP(n: Option<u32>, m: Option<u32>) -> (r: ControlFunction)
    ensures
        r@ == sequence_model(
            seq!['\u{0066}'],
            seq![dec_of(or_default(n, 1) as int), dec_of(or_default(m, 1) as int)],
        ),
        r@.wf(),
{
    proof {
        reveal_strlit("\u{0066}");
        assert("\u{0066}"@ =~= seq!['\u{0066}']);
    }
    let a = match n {
        Some(v) => v,
        None => 1,
    };
    let b = match m {
        Some(v) => v,
        None => 1,
    };
    ControlFunction::new_sequence("\u{0066}", params2(u32_to_dec(a), u32_to_dec(b)))
}

/// Insert Character.
///
/// `ICH` is used to prepare the insertion of `n` characters, by putting
/// into the erased state the active position and the `n-1` following or
/// preceding character positions.  Default value for `n` is `1`.
pub fn ICH(n: Option<u32>) -> (r: ControlFunction)
    ensures
        r@ == sequence_model(seq!['\u{0040}'], seq![dec_of(or_default(n, 1) as int)]),
        r@.wf(),
{
    proof {
        reveal_strlit("\u{0040}");
        assert("\u{0040}"@ =~= seq!['\u{0040}']);
    }
    let v = match n {
        Some(v) => v,
        None => 1,
    };
    ControlFunction::new_sequence("\u{0040}", params1(u32_to_dec(v)))
}

/// Valid parameter values to the function [`IDCS`].
#[derive(Clone, Copy, PartialEq, Eq, Debug)]
pub enum IdentifyDeviceControlString {
    /// Reserved for use with the diagnostic state of the Status Report
    /// Transfer Mode.
    Diagnostic,
    /// Reserved for Dynamically Redefinable Character Sets according to
    /// Standard ECMA-35.
    DynamicallyRedefinableCharacterSet,
    /// Private command string.
    Private(u32),
}

impl IdentifyDeviceControlString {
    /// The numeric parameter value this variant stands for.
    pub open spec fn code(self) -> int {
        match self {
            IdentifyDeviceControlString::Diagnostic => 1,
            IdentifyDeviceControlString::DynamicallyRedefinableCharacterSet => 2,
            IdentifyDeviceControlString::Private(i) => i as int,
        }
    }

    /// The numeric parameter value this variant stands for.
    pub fn as_u32(self) -> (r: u32)
        ensures
            r as int == self.code(),
    {
        match self {
            IdentifyDeviceControlString::Diagnostic => 1,
            IdentifyDeviceControlString::DynamicallyRedefinableCharacterSet => 2,
            IdentifyDeviceControlString::Private(i) => i,
        }
    }
}

/// Identify Device Control String.
///
/// `IDCS` is used to specify the purpose and format of the command string
/// of subsequent Device Control Strings.
pub fn IDCS(s: IdentifyDeviceControlString) -> (r: ControlFunction)
    ensures
        r@ == sequence_model(seq!['\u{0020}', '\u{004F}'], seq![dec_of(s.code())]),
        r@.wf(),
{
    proof {
        reveal_strlit("\u{0020}\u{004F}");
        assert("\u{0020}\u{004F}"@ =~= seq!['\u{0020}', '\u{004F}']);
    }
    ControlFunction::new_sequence("\u{0020}\u{004F}", params1(u32_to_dec(s.as_u32())))
}

/// Identify Graphic Subrepertoire.
///
/// `IGS` is used to indicate that a repertoire of the graphic characters of
/// ISO/IEC 10367 is used in the subsequent text.
pub fn IGS(n: u32) -> (r: ControlFunction)
    ensures
        r@ == sequence_model(seq!['\u{0020}', '\u{004D}'], seq![dec_of(n as int)]),
        r@.wf(),
{
    proof {
        reveal_strlit("\u{0020}\u{004D}");
        assert("\u{0020}\u{004D}"@ =~= seq!['\u{0020}', '\u{004D}']);
    }
    ControlFunction::new_sequence("\u{0020}\u{004D}", params1(u32_to_dec(n)))
}

/// Insert Line.
///
/// `IL` is used to prepare the insertion of `n` lines, by putting into the
/// erased state the active line and the `n-1` following or preceding lines.
/// Default value for `n` is `1`.
pub fn IL(n: Option<u32>) -> (r: ControlFunction)
    ensures
        r@ == sequence_model(seq!['\u{004C}'], seq![dec_of(or_default(n, 1) as int)]),
        r@.wf(),
{
    proof {
        reveal_strlit("\u{004C}");
        assert("\u{004C}"@ =~= seq!['\u{004C}']);
    }
    let v = match n {
        Some(v) => v,
        None => 1,
    };
    ControlFunction::new_sequence("\u{004C}", params1(u32_to_dec(v)))
}

/// Valid parameter values to the function [`JFY`].
#[derive(Clone, Copy, PartialEq, Eq, Debug)]
pub enum Justification {
    /// No justification, end of justification of preceding text.
    NoJustification,
    /// Word fill.
    WordFill,
    /// Word space.
    WordSpace,
    /// Letter space.
    LetterSpace,
    /// Hyphenation.
    Hyphenation,
    /// Flush to line home position margin.
    Left,
    /// Centre between line home position and line limit position margins.
    Centre,
    /// Flush to line limit position margin.
    Right,
    /// Italian hyphenation.
    ItalianHyphenation,
}

impl Justification {
    /// The numeric parameter value this variant stands for.
    pub open spec fn code(self) -> int {
        match self {
            Justification::NoJustification => 0,
            Justification::WordFill => 1,
            Justification::WordSpace => 2,
            Justification::LetterSpace => 3,
            Justification::Hyphenation => 4,
            Justification::Left => 5,
            Justification::Centre => 6,
            Justification::Right => 7,
            Justification::ItalianHyphenation => 8,
        }
    }

    /// The numeric parameter value this variant stands for.
    pub fn as_u32(self) -> (r: u32)
        ensures
            r as int == self.code(),
    {
        match self {
            Justification::NoJustification => 0,
            Justification::WordFill => 1,
            Justification::WordSpace => 2,
            Justification::LetterSpace => 3,
            Justification::Hyphenation => 4,
            Justification::Left => 5,
            Justification::Centre => 6,
            Justification::Right => 7,
            Justification::ItalianHyphenation => 8,
        }
    }
}

/// Justify.
///
/// `JFY` is used to indicate the beginning of a string of graphic
/// characters in the presentation component that are to be justified
/// according to the layout specified by the parameter value.  Default value
/// for `s` is [`Justification::NoJustification`].
pub fn JFY(s: Option<Justification>) -> (r: ControlFunction)
    ensures
        r@ == sequence_model(
            seq!['\u{0020}', '\u{0046}'],
            seq![dec_of(or_default(s, Justification::NoJustification).code())],
        ),
        r@.wf(),
{
    proof {
        reveal_strlit("\u{0020}\u{0046}");
        assert("\u{0020}\u{0046}"@ =~= seq!['\u{0020}', '\u{0046}']);
    }
    let v = match s {
        Some(v) => v,
        None => Justification::NoJustification,
    };
    ControlFunction::new_sequence("\u{0020}\u{0046}", params1(u32_to_dec(v.as_u32())))
}

/// Valid parameter values to the function [`MC`].
#[derive(Clone, Copy, PartialEq, Eq, Debug)]
pub enum MediaCopy {
    /// Initiate transfer to a primary auxiliary device.
    BeginTransferToPrimary,
    /// Initiate transfer from a primary auxiliary device.
    BeginTransferFromPrimary,
    /// Initiate transfer to a secondary auxiliary device.
    BeginTransferToSecondary,
    /// Initiate transfer from a secondary auxiliary device.
    BeginTransferFromSecondary,
    /// Stop relay to a primary auxiliary device.
    StopRelayPrimary,
    /// Start relay to a primary auxiliary device.
    StartRelayPrimary,
    /// Stop relay to a secondary auxiliary device.
    StopRelaySecondary,
    /// Start relay to a secondary auxiliary device.
    StartRelaySecondary,
}

impl MediaCopy {
    /// The numeric parameter value this variant stands for.
    pub open spec fn code(self) -> int {
        match self {
            MediaCopy::BeginTransferToPrimary => 0,
            MediaCopy::BeginTransferFromPrimary => 1,
            MediaCopy::BeginTransferToSecondary => 2,
            MediaCopy::BeginTransferFromSecondary => 3,
            MediaCopy::StopRelayPrimary => 4,
            MediaCopy::StartRelayPrimary => 5,
            MediaCopy::StopRelaySecondary => 6,
            MediaCopy::StartRelaySecondary => 7,
        }
    }

    /// The numeric parameter value this variant stands for.
    pub fn as_u32(self) -> (r: u32)
        ensures
            r as int == self.code(),
    {
        match self {
            MediaCopy::BeginTransferToPrimary => 0,
            MediaCopy::BeginTransferFromPrimary => 1,
            MediaCopy::BeginTransferToSecondary => 2,
            MediaCopy::BeginTransferFromSecondary => 3,
            MediaCopy::StopRelayPrimary => 4,
            MediaCopy::StartRelayPrimary => 5,
            MediaCopy::StopRelaySecondary => 6,
            MediaCopy::StartRelaySecondary => 7,
        }
    }
}

/// Media Copy.
///
/// `MC` is used either to initiate a transfer of data from or to an
/// auxiliary input/output device or to enable or disable the relay of the
/// received data stream to such a device.  Default value for `s` is
/// [`MediaCopy::BeginTransferToPrimary`].
pub fn MC(s: Option<MediaCopy>) -> (r: ControlFunction)
    ensures
        r@ == sequence_model(
            seq!['\u{0069}'],
            seq![dec_of(or_default(s, MediaCopy::BeginTransferToPrimary).code())],
        ),
        r@.wf(),
{
    proof {
        reveal_strlit("\u{0069}");
        assert("\u{0069}"@ =~= seq!['\u{0069}']);
    }
    let v = match s {
        Some(v) => v,
        None => MediaCopy::BeginTransferToPrimary,
    };
    ControlFunction::new_sequence("\u{0069}", params1(u32_to_dec(v.as_u32())))
}

/// Next Page.
///
/// `NP` causes the `n`-th following page in the presentation component to
/// be displayed.  Default value for `n` is `1`.
pub fn NP(n: Option<u32>) -> (r: ControlFunction)
    ensures
        r@ == sequence_model(seq!['\u{0055}'], seq![dec_of(or_default(n, 1) as int)]),
        r@.wf(),
{
    proof {
        reveal_strlit("\u{0055}");
        assert("\u{0055}"@ =~= seq!['\u{0055}']);
    }
    let v = match n {
        Some(v) => v,
        None => 1,
    };
    ControlFunction::new_sequence("\u{0055}", params1(u32_to_dec(v)))
}

/// Valid parameter values to the function [`PEC`].
#[derive(Clone, Copy, PartialEq, Eq, Debug)]
pub enum PresentationExpandContract {
    /// Normal, as specified by `SCS`, `SHS` or `SPI`.
    Normal,
    /// Expanded, multiplied by a factor not greater than `2`.
    Expanded,
    /// Condensed, multiplied by a factor not less than `0.5`.
    Condensed,
}

impl PresentationExpandContract {
    /// The numeric parameter value this variant stands for.
    pub open spec fn code(self) -> int {
        match self {
            PresentationExpandContract::Normal => 0,
            PresentationExpandContract::Expanded => 1,
            PresentationExpandContract::Condensed => 2,
        }
    }

    /// The numeric parameter value this variant stands for.
    pub fn as_u32(self) -> (r: u32)
        ensures
            r as int == self.code(),
    {
        match self {
            PresentationExpandContract::Normal => 0,
            PresentationExpandContract::Expanded => 1,
            PresentationExpandContract::Condensed => 2,
        }
    }
}

/// Presentation Expand or Contract.
///
/// `PEC` is used to establish the spacing and the extent of the graphic
/// characters for subsequent text.  Default value for `s` is
/// [`PresentationExpandContract::Normal`].
pub fn PEC(s: Option<PresentationExpandContract>) -> (r: ControlFunction)
    ensures
        r@ == sequence_model(
            seq!['\u{0020}', '\u{005A}'],
            seq![dec_of(or_default(s, PresentationExpandContract::Normal).code())],
        ),
        r@.wf(),
{
    proof {
        reveal_strlit("\u{0020}\u{005A}");
        assert("\u{0020}\u{005A}"@ =~= seq!['\u{0020}', '\u{005A}']);
    }
    let v = match s {
        Some(v) => v,
        None => PresentationExpandContract::Normal,
    };
    ControlFunction::new_sequence("\u{0020}\u{005A}", params1(u32_to_dec(v.as_u32())))
}

/// Valid parameter values to the function [`PFS`].
#[derive(Clone, Copy, PartialEq, Eq, Debug)]
pub enum PageFormat {
    /// Tall basic text communication format.
    TallBasicText,
    /// Wide basic text communication format.
    WideBasicText,
    /// Tall basic A4 format.
    TallBasicA4,
    /// Wide basic A4 format.
    WideBasicA4,
    /// Tall North American letter format.
    TallLetter,
    /// Wide North American letter format.
    WideLetter,
    /// Tall extended A4 format.
    TallExtendedA4,
    /// Wide extended A4 format.
    WideExtendedA4,
    /// Tall North American legal format.
    TallLegal,
    /// Wide North American legal format.
    WideLegal,
    /// A4 short lines format.
    A4ShortLines,
    /// A4 long lines format.
    A4LongLines,
    /// B5 short lines format.
    B5ShortLines,
    /// B5 long lines format.
    B5LongLines,
    /// B4 short lines format.
    B4ShortLines,
    /// B4 long lines format.
    B4LongLines,
}

impl PageFormat {
    /// The numeric parameter value this variant stands for.
    pub open spec fn code(self) -> int {
        match self {
            PageFormat::TallBasicText => 0,
            PageFormat::WideBasicText => 1,
            PageFormat::TallBasicA4 => 2,
            PageFormat::WideBasicA4 => 3,
            PageFormat::TallLetter => 4,
            PageFormat::WideLetter => 5,
            PageFormat::TallExtendedA4 => 6,
            PageFormat::WideExtendedA4 => 7,
            PageFormat::TallLegal => 8,
            PageFormat::WideLegal => 9,
            PageFormat::A4ShortLines => 10,
            PageFormat::A4LongLines => 11,
            PageFormat::B5ShortLines => 12,
            PageFormat::B5LongLines => 13,
            PageFormat::B4ShortLines => 14,
            PageFormat::B4LongLines => 15,
        }
    }

    /// The numeric parameter value this variant stands for.
    pub fn as_u32(self) -> (r: u32)
        ensures
            r as int == self.code(),
    {
        match self {
            PageFormat::TallBasicText => 0,
            PageFormat::WideBasicText => 1,
            PageFormat::TallBasicA4 => 2,
            PageFormat::WideBasicA4 => 3,
            PageFormat::TallLetter => 4,
            PageFormat::WideLetter => 5,
            PageFormat::TallExtendedA4 => 6,
            PageFormat::WideExtendedA4 => 7,
            PageFormat::TallLegal => 8,
            PageFormat::WideLegal => 9,
            PageFormat::A4ShortLines => 10,
            PageFormat::A4LongLines => 11,
            PageFormat::B5ShortLines => 12,
            PageFormat::B5LongLines => 13,
            PageFormat::B4ShortLines => 14,
            PageFormat::B4LongLines => 15,
        }
    }
}

/// Page Format Selection.
///
/// `PFS` is used to establish the available area for the imaging of pages
/// of text based on paper size.  Default value for `s` is
/// [`PageFormat::TallBasicText`].
pub fn PFS(s: Option<PageFormat>) -> (r: ControlFunction)
    ensures
        r@ == sequence_model(
            seq!['\u{0020}', '\u{004A}'],
            seq![dec_of(or_default(s, PageFormat::TallBasicText).code())],
        ),
        r@.wf(),
{
    proof {
        reveal_strlit("\u{0020}\u{004A}");
        assert("\u{0020}\u{004A}"@ =~= seq!['\u{0020}', '\u{004A}']);
    }
    let v = match s {
        Some(v) => v,
        None => PageFormat::TallBasicText,
    };
    ControlFunction::new_sequence("\u{0020}\u{004A}", params1(u32_to_dec(v.as_u32())))
}

/// Preceding Page.
///
/// `PP` causes the `n`-th preceding page in the presentation component to
/// be displayed.  Default value for `n` is `1`.
pub fn PP(n: Option<u32>) -> (r: ControlFunction)
    ensures
        r@ == sequence_model(seq!['\u{0056}'], seq![dec_of(or_default(n, 1) as int)]),
        r@.wf(),
{
    proof {
        reveal_strlit("\u{0056}");
        assert("\u{0056}"@ =~= seq!['\u{0056}']);
    }
    let v = match n {
        Some(v) => v,
        None => 1,
    };
    ControlFunction::new_sequence("\u{0056}", params1(u32_to_dec(v)))
}

/// Page Position Absolute.
///
/// `PPA` causes the active data position to be moved in the data component
/// to the corresponding character position on the `n`-th page.  Default
/// value for `n` is `1`.
pub fn PPA(n: Option<u32>) -> (r: ControlFunction)
    ensures
        r@ == sequence_model(seq!['\u{0020}', '\u{0050}'], seq![dec_of(or_default(n, 1) as int)]),
        r@.wf(),
{
    proof {
        reveal_strlit("\u{0020}\u{0050}");
        assert("\u{0020}\u{0050}"@ =~= seq!['\u{0020}', '\u{0050}']);
    }
    let v = match n {
        Some(v) => v,
        None => 1,
    };
    ControlFunction::new_sequence("\u{0020}\u{0050}", params1(u32_to_dec(v)))
}

/// Page Position Backward.
///
/// `PPB` causes the active data position to be moved in the data component
/// to the corresponding character position on the `n`-th preceding page.
/// Default value for `n` is `1`.
pub fn PPB(n: Option<u32>) -> (r: ControlFunction)
    ensures
        r@ == sequence_model(seq!['\u{0020}', '\u{0052}'], seq![dec_of(or_default(n, 1) as int)]),
        r@.wf(),
{
    proof {
        reveal_strlit("\u{0020}\u{0052}");
        assert("\u{0020}\u{0052}"@ =~= seq!['\u{0020}', '\u{0052}']);
    }
    let v = match n {
        Some(v) => v,
        None => 1,
    };
    ControlFunction::new_sequence("\u{0020}\u{0052}", params1(u32_to_dec(v)))
}

/// Page Position Forward.
///
/// `PPR` causes the active data position to be moved in the data component
/// to the corresponding character position on the `n`-th following page.
/// Default value for `n` is `1`.
pub fn PPR(n: Option<u32>) -> (r: ControlFunction)
    ensures
        r@ == sequence_model(seq!['\u{0020}', '\u{0051}'], seq![dec_of(or_default(n, 1) as int)]),
        r@.wf(),
{
    proof {
        reveal_strlit("\u{0020}\u{0051}");
        assert("\u{0020}\u{0051}"@ =~= seq!['\u{0020}', '\u{0051}']);
    }
    let v = match n {
        Some(v) => v,
        None => 1,
    };
    ControlFunction::new_sequence("\u{0020}\u{0051}", params1(u32_to_dec(v)))
}

/// Valid parameter values to the function [`PTX`].
#[derive(Clone, Copy, PartialEq, Eq, Debug)]
pub enum ParallelText {
    /// End of parallel texts.
    End,
    /// Beginning of a string of principal parallel text.
    BeginPrincipal,
    /// Beginning of a string of supplementary parallel text.
    BeginSupplementary,
    /// Beginning of a string of supplementary Japanese phonetic annotation.
    BeginJapanesePhonetic,
    /// Beginning of a string of supplementary Chinese phonetic annotation.
    BeginChinesePhonetic,
    /// End of a string of supplementary phonetic annotations.
    EndPhonetic,
}

impl ParallelText {
    /// The numeric parameter value this variant stands for.
    pub open spec fn code(self) -> int {
        match self {
            ParallelText::End => 0,
            ParallelText::BeginPrincipal => 1,
            ParallelText::BeginSupplementary => 2,
            ParallelText::BeginJapanesePhonetic => 3,
            ParallelText::BeginChinesePhonetic => 4,
            ParallelText::EndPhonetic => 5,
        }
    }

    /// The numeric parameter value this variant stands for.
    pub fn as_u32(self) -> (r: u32)
        ensures
            r as int == self.code(),
    {
        match self {
            ParallelText::End => 0,
            ParallelText::BeginPrincipal => 1,
            ParallelText::BeginSupplementary => 2,
            ParallelText::BeginJapanesePhonetic => 3,
            ParallelText::BeginChinesePhonetic => 4,
            ParallelText::EndPhonetic => 5,
        }
    }
}

/// Parallel Texts.
///
/// `PTX` is used to delimit strings of graphic characters that are
/// communicated one after another in the data stream, but that are intended
/// to be presented in parallel with one another.  Default value for `s` is
/// [`ParallelText::End`].
pub fn PTX(s: Option<ParallelText>) -> (r: ControlFunction)
    ensures
        r@ == sequence_model(
            seq!['\u{005C}'],
            seq![dec_of(or_default(s, ParallelText::End).code())],
        ),
        r@.wf(),
{
    proof {
        reveal_strlit("\u{005C}");
        assert("\u{005C}"@ =~= seq!['\u{005C}']);
    }
    let v = match s {
        Some(v) => v,
        None => ParallelText::End,
    };
    ControlFunction::new_sequence("\u{005C}", params1(u32_to_dec(v.as_u32())))
}

/// Valid parameter values to the function [`QUAD`].
#[derive(Clone, Copy, PartialEq, Eq, Debug)]
pub enum Alignment {
    /// Flush to line home position margin.
    LineHome,
    /// Flush to line home position margin and fill with leader.
    LineHomeLeader,
    /// Centre between line home position and line limit position margins.
    Centre,
    /// Centre between the margins and fill with leader.
    CentreLeader,
    /// Flush to line limit position margin.
    LineLimit,
    /// Flush to line limit position margin and fill with leader.
    LineLimitLeader,
    /// Flush to both margins.
    Justify,
}

impl Alignment {
    /// The numeric parameter value this variant stands for.
    pub open spec fn code(self) -> int {
        match self {
            Alignment::LineHome => 0,
            Alignment::LineHomeLeader => 1,
            Alignment::Centre => 2,
            Alignment::CentreLeader => 3,
            Alignment::LineLimit => 4,
            Alignment::LineLimitLeader => 5,
            Alignment::Justify => 6,
        }
    }

    /// The numeric parameter value this variant stands for.
    pub fn as_u32(self) -> (r: u32)
        ensures
            r as int == self.code(),
    {
        match self {
            Alignment::LineHome => 0,
            Alignment::LineHomeLeader => 1,
            Alignment::Centre => 2,
            Alignment::CentreLeader => 3,
            Alignment::LineLimit => 4,
            Alignment::LineLimitLeader => 5,
            Alignment::Justify => 6,
        }
    }
}

/// Quad.
///
/// `QUAD` is used to indicate the end of a string of graphic characters
/// that are to be positioned on a single line according to the layout
/// specified by the parameter value.  Default value for `s` is
/// [`Alignment::LineHome`].
pub fn QUAD(s: Option<Alignment>) -> (r: ControlFunction)
    ensures
        r@ == sequence_model(
            seq!['\u{0020}', '\u{0048}'],
            seq![dec_of(or_default(s, Alignment::LineHome).code())],
        ),
        r@.wf(),
{
    proof {
        reveal_strlit("\u{0020}\u{0048}");
        assert("\u{0020}\u{0048}"@ =~= seq!['\u{0020}', '\u{0048}']);
    }
    let v = match s {
        Some(v) => v,
        None => Alignment::LineHome,
    };
    ControlFunction::new_sequence("\u{0020}\u{0048}", params1(u32_to_dec(v.as_u32())))
}

/// Repeat.
///
/// `REP` is used to indicate that the preceding graphic character is to be
/// repeated `n` times.  Default value for `n` is `1`.
pub fn REP(n: Option<u32>) -> (r: ControlFunction)
    ensures
        r@ == sequence_model(seq!['\u{0062}'], seq![dec_of(or_default(n, 1) as int)]),
        r@.wf(),
{
    proof {
        reveal_strlit("\u{0062}");
        assert("\u{0062}"@ =~= seq!['\u{0062}']);
    }
    let v = match n {
        Some(v) => v,
        None => 1,
    };
    ControlFunction::new_sequence("\u{0062}", params1(u32_to_dec(v)))
}

/// Set Additional Character Separation.
///
/// `SACS` is used to establish extra inter-character escapement for
/// subsequent text.  Default value for `n` is `0`.
pub fn SACS(n: Option<u32>) -> (r: ControlFunction)
    ensures
        r@ == sequence_model(seq!['\u{0020}', '\u{005C}'], seq![dec_of(or_default(n, 0) as int)]),
        r@.wf(),
{
    proof {
        reveal_strlit("\u{0020}\u{005C}");
        assert("\u{0020}\u{005C}"@ =~= seq!['\u{0020}', '\u{005C}']);
    }
    let v = match n {
        Some(v) => v,
        None => 0,
    };
    ControlFunction::new_sequence("\u{0020}\u{005C}", params1(u32_to_dec(v)))
}

/// Valid parameter values to the function [`SAPV`].
#[derive(Clone, Copy, PartialEq, Eq, Debug)]
pub enum PresentationVariant {
    /// Default presentation; cancels the effect of any preceding occurrence
    /// of `SAPV` in the data stream.
    Default,
    /// The decimal digits are presented by means of the graphic symbols
    /// used in the Latin script.
    LatinDecimals,
    /// The decimal digits are presented by means of the graphic symbols
    /// used in the Arabic script.
    ArabicDecimals,
    /// When the character path is right-to-left, graphic characters of
    /// left/right handed pairs are presented as mirrored.
    MirrorPairs,
    /// When the character path is right-to-left, asymmetric mathematical
    /// operators and delimiters are presented as mirrored.
    MirrorFormulae,
    /// The following graphic character is presented in its isolated form.
    Isolated,
    /// The following graphic character is presented in its initial form.
    Initial,
    /// The following graphic character is presented in its medial form.
    Medial,
    /// The following graphic character is presented in its final form.
    Final,
    /// The bit combination `02/14` standing for a decimal mark is presented
    /// as FULL STOP.
    DecimalFullStop,
    /// The bit combination `02/14` standing for a decimal mark is presented
    /// as COMMA.
    DecimalComma,
    /// Vowels are presented above or below the preceding character.
    VowelAboveOrBelow,
    /// Vowels are presented after the preceding character.
    VowelAfterPreceding,
    /// Contextual shape determination of Arabic scripts, including the
    /// LAM-ALEPH ligature but excluding all other Arabic ligatures.
    ContextualShapeArabicScriptWithLamAleph,
    /// Contextual shape determination of Arabic scripts, excluding all
    /// Arabic ligatures.
    ContextualShapeArabicScript,
    /// Cancels the effect of [`PresentationVariant::MirrorPairs`] and
    /// [`PresentationVariant::MirrorFormulae`].
    NoMirroring,
    /// Vowels are not presented.
    NoVowels,
    /// Italicized characters are slanted following the string direction.
    SlantFollowsStringDirection,
    /// Contextual shape determination of Arabic scripts is not used, the
    /// graphic characters - including the digits - are presented in the
    /// form they are stored.
    NoContextualShapeArabicScript,
    /// Contextual shape determination of Arabic scripts is not used, the
    /// graphic characters - excluding the digits - are presented in the
    /// form they are stored.
    NoContextualShapeArabicScriptExceptDigits,
    /// The graphic symbols used to present the decimal digits are device
    /// dependent.
    DeviceDependentDecimalDigits,
    /// Establishes the effect of the isolated, initial, medial and final
    /// forms for the following graphic characters until cancelled.
    PersistCharacterForm,
    /// Cancels the effect of
    /// [`PresentationVariant::PersistCharacterForm`].
    DesistCharacterForm,
}

impl PresentationVariant {
    /// The numeric parameter value this variant stands for.
    pub open spec fn code(self) -> int {
        match self {
            PresentationVariant::Default => 0,
            PresentationVariant::LatinDecimals => 1,
            PresentationVariant::ArabicDecimals => 2,
            PresentationVariant::MirrorPairs => 3,
            PresentationVariant::MirrorFormulae => 4,
            PresentationVariant::Isolated => 5,
            PresentationVariant::Initial => 6,
            PresentationVariant::Medial => 7,
            PresentationVariant::Final => 8,
            PresentationVariant::DecimalFullStop => 9,
            PresentationVariant::DecimalComma => 10,
            PresentationVariant::VowelAboveOrBelow => 11,
            PresentationVariant::VowelAfterPreceding => 12,
            PresentationVariant::ContextualShapeArabicScriptWithLamAleph => 13,
            PresentationVariant::ContextualShapeArabicScript => 14,
            PresentationVariant::NoMirroring => 15,
            PresentationVariant::NoVowels => 16,
            PresentationVariant::SlantFollowsStringDirection => 17,
            PresentationVariant::NoContextualShapeArabicScript => 18,
            PresentationVariant::NoContextualShapeArabicScriptExceptDigits => 19,
            PresentationVariant::DeviceDependentDecimalDigits => 20,
            PresentationVariant::PersistCharacterForm => 21,
            PresentationVariant::DesistCharacterForm => 22,
        }
    }

    /// The numeric parameter value this variant stands for.
    pub fn as_u32(self) -> (r: u32)
        ensures
            r as int == self.code(),
    {
        match self {
            PresentationVariant::Default => 0,
            PresentationVariant::LatinDecimals => 1,
            PresentationVariant::ArabicDecimals => 2,
            PresentationVariant::MirrorPairs => 3,
            PresentationVariant::MirrorFormulae => 4,
            PresentationVariant::Isolated => 5,
            PresentationVariant::Initial => 6,
            PresentationVariant::Medial => 7,
            PresentationVariant::Final => 8,
            PresentationVariant::DecimalFullStop => 9,
            PresentationVariant::DecimalComma => 10,
            PresentationVariant::VowelAboveOrBelow => 11,
            PresentationVariant::VowelAfterPreceding => 12,
            PresentationVariant::ContextualShapeArabicScriptWithLamAleph => 13,
            PresentationVariant::ContextualShapeArabicScript => 14,
            PresentationVariant::NoMirroring => 15,
            PresentationVariant::NoVowels => 16,
            PresentationVariant::SlantFollowsStringDirection => 17,
            PresentationVariant::NoContextualShapeArabicScript => 18,
            PresentationVariant::NoContextualShapeArabicScriptExceptDigits => 19,
            PresentationVariant::DeviceDependentDecimalDigits => 20,
            PresentationVariant::PersistCharacterForm => 21,
            PresentationVariant::DesistCharacterForm => 22,
        }
    }
}

/// Select Alternative Presentation Variants.
///
/// `SAPV` is used to specify one or more variants for the presentation of
/// subsequent text.  Default value for `s` is
/// [`PresentationVariant::Default`].
pub fn SAPV(s: Option<PresentationVariant>) -> (r: ControlFunction)
    ensures
        r@ == sequence_model(
            seq!['\u{0020}', '\u{005D}'],
            seq![dec_of(or_default(s, PresentationVariant::Default).code())],
        ),
        r@.wf(),
{
    proof {
        reveal_strlit("\u{0020}\u{005D}");
        assert("\u{0020}\u{005D}"@ =~= seq!['\u{0020}', '\u{005D}']);
    }
    let v = match s {
        Some(v) => v,
        None => PresentationVariant::Default,
    };
    ControlFunction::new_sequence("\u{0020}\u{005D}", params1(u32_to_dec(v.as_u32())))
}

/// Valid parameter values to the function [`SCO`].
#[derive(Clone, Copy, PartialEq, Eq, Debug)]
pub enum CharacterOrientation {
    /// Rotate by 0 degrees, normal orientation.
    Normal,
    /// Rotate by 45 degrees.
    Rotate45,
    /// Rotate by 90 degrees.
    Rotate90,
    /// Rotate by 135 degrees.
    Rotate135,
    /// Rotate by 180 degrees.
    Rotate180,
    /// Rotate by 225 degrees.
    Rotate225,
    /// Rotate by 270 degrees.
    Rotate270,
    /// Rotate by 315 degrees.
    Rotate315,
}

impl CharacterOrientation {
    /// The numeric parameter value this variant stands for.
    pub open spec fn code(self) -> int {
        match self {
            CharacterOrientation::Normal => 0,
            CharacterOrientation::Rotate45 => 1,
            CharacterOrientation::Rotate90 => 2,
            CharacterOrientation::Rotate135 => 3,
            CharacterOrientation::Rotate180 => 4,
            CharacterOrientation::Rotate225 => 5,
            CharacterOrientation::Rotate270 => 6,
            CharacterOrientation::Rotate315 => 7,
        }
    }

    /// The numeric parameter value this variant stands for.
    pub fn as_u32(self) -> (r: u32)
        ensures
            r as int == self.code(),
    {
        match self {
            CharacterOrientation::Normal => 0,
            CharacterOrientation::Rotate45 => 1,
            CharacterOrientation::Rotate90 => 2,
            CharacterOrientation::Rotate135 => 3,
            CharacterOrientation::Rotate180 => 4,
            CharacterOrientation::Rotate225 => 5,
            CharacterOrientation::Rotate270 => 6,
            CharacterOrientation::Rotate315 => 7,
        }
    }
}

/// Select Character Orientation.
///
/// `SCO` is used to establish the amount of rotation of the graphic
/// characters following in the data stream.  Default value for `s` is
/// [`CharacterOrientation::Normal`].
pub fn SCO(s: Option<CharacterOrientation>) -> (r: ControlFunction)
    ensures
        r@ == sequence_model(
            seq!['\u{0020}', '\u{0065}'],
            seq![dec_of(or_default(s, CharacterOrientation::Normal).code())],
        ),
        r@.wf(),
{
    proof {
        reveal_strlit("\u{0020}\u{0065}");
        assert("\u{0020}\u{0065}"@ =~= seq!['\u{0020}', '\u{0065}']);
    }
    let v = match s {
        Some(v) => v,
        None => CharacterOrientation::Normal,
    };
    ControlFunction::new_sequence("\u{0020}\u{0065}", params1(u32_to_dec(v.as_u32())))
}

/// Valid parameter values to the function [`SCP`].
#[derive(Clone, Copy, PartialEq, Eq, Debug)]
pub enum CharacterPath {
    /// Left-to-right in the case of horizontal line orientation, or
    /// top-to-bottom in the case of vertical line orientation.
    LefToRight,
    /// Right-to-left in the case of horizontal line orientation, or
    /// bottom-to-top in the case of vertical line orientation.
    RightToLeft,
}

impl CharacterPath {
    /// The numeric parameter value this variant stands for.
    pub open spec fn code(self) -> int {
        match self {
            CharacterPath::LefToRight => 1,
            CharacterPath::RightToLeft => 2,
        }
    }

    /// The numeric parameter value this variant stands for.
    pub fn as_u32(self) -> (r: u32)
        ensures
            r as int == self.code(),
    {
        match self {
            CharacterPath::LefToRight => 1,
            CharacterPath::RightToLeft => 2,
        }
    }
}

/// Valid parameter values to the function [`SCP`].
#[derive(Clone, Copy, PartialEq, Eq, Debug)]
pub enum CharacterPathScope {
    /// Undefined, implementation specific.
    Undefined,
    /// The content of the active line in the presentation component is
    /// updated to correspond to the content of the active line in the data
    /// component.
    InPresentationComponent,
    /// The content of the active line in the data component is updated to
    /// correspond to the content of the active line in the presentation
    /// component.
    InDataComponent,
}

impl CharacterPathScope {
    /// The numeric parameter value this variant stands for.
    pub open spec fn code(self) -> int {
        match self {
            CharacterPathScope::Undefined => 0,
            CharacterPathScope::InPresentationComponent => 1,
            CharacterPathScope::InDataComponent => 2,
        }
    }

    /// The numeric parameter value this variant stands for.
    pub fn as_u32(self) -> (r: u32)
        ensures
            r as int == self.code(),
    {
        match self {
            CharacterPathScope::Undefined => 0,
            CharacterPathScope::InPresentationComponent => 1,
            CharacterPathScope::InDataComponent => 2,
        }
    }
}

/// Select Character Path.
///
/// `SCP` is used to select the character path, relative to the line
/// orientation, for the active line and subsequent lines in the
/// presentation component.
pub fn SCP(s: CharacterPath, t: CharacterPathScope) -> (r: ControlFunction)
    ensures
        r@ == sequence_model(
            seq!['\u{0020}', '\u{006B}'],
            seq![dec_of(s.code()), dec_of(t.code())],
        ),
        r@.wf(),
{
    proof {
        reveal_strlit("\u{0020}\u{006B}");
        assert("\u{0020}\u{006B}"@ =~= seq!['\u{0020}', '\u{006B}']);
    }
    ControlFunction::new_sequence(
        "\u{0020}\u{006B}",
        params2(u32_to_dec(s.as_u32()), u32_to_dec(t.as_u32())),
    )
}

/// Set Character Spacing.
///
/// `SCS` is used to establish the character spacing for subsequent text;
/// `n` specifies the character spacing.
pub fn SCS(n: u32) -> (r: ControlFunction)
    ensures
        r@ == sequence_model(seq!['\u{0020}', '\u{0067}'], seq![dec_of(n as int)]),
        r@.wf(),
{
    proof {
        reveal_strlit("\u{0020}\u{0067}");
        assert("\u{0020}\u{0067}"@ =~= seq!['\u{0020}', '\u{0067}']);
    }
    ControlFunction::new_sequence("\u{0020}\u{0067}", params1(u32_to_dec(n)))
}

/// Scroll Down.
///
/// `SD` causes the data in the presentation component to be moved by `n`
/// line positions, such that the data appear to move down.  Default value
/// for `n` is `1`.
pub fn SD(n: Option<u32>) -> (r: ControlFunction)
    ensures
        r@ == sequence_model(seq!['\u{0054}'], seq![dec_of(or_default(n, 1) as int)]),
        r@.wf(),
{
    proof {
        reveal_strlit("\u{0054}");
        assert("\u{0054}"@ =~= seq!['\u{0054}']);
    }
    let v = match n {
        Some(v) => v,
        None => 1,
    };
    ControlFunction::new_sequence("\u{0054}", params1(u32_to_dec(v)))
}

/// Valid parameter values to the function [`SDS`].
#[derive(Clone, Copy, PartialEq, Eq, Debug)]
pub enum StringDirection {
    /// End of a directed string; re-establish the previous direction.
    End,
    /// Start of a directed string, establish the direction left-to-right.
    StartLeftToRight,
    /// Start of a directed string, establish the direction right-to-left.
    StartRightToLeft,
}

impl StringDirection {
    /// The numeric parameter value this variant stands for.
    pub open spec fn code(self) -> int {
        match self {
            StringDirection::End => 0,
            StringDirection::StartLeftToRight => 1,
            StringDirection::StartRightToLeft => 2,
        }
    }

    /// The numeric parameter value this variant stands for.
    pub fn as_u32(self) -> (r: u32)
        ensures
            r as int == self.code(),
    {
        match self {
            StringDirection::End => 0,
            StringDirection::StartLeftToRight => 1,
            StringDirection::StartRightToLeft => 2,
        }
    }
}

/// Start Directed String.
///
/// `SDS` is used to establish in the data component the beginning and end
/// of a string of characters as well as the direction of the string.
/// Default value for `s` is [`StringDirection::End`].
pub fn SDS(s: Option<StringDirection>) -> (r: ControlFunction)
    ensures
        r@ == sequence_model(
            seq!['\u{005D}'],
            seq![dec_of(or_default(s, StringDirection::End).code())],
        ),
        r@.wf(),
{
    proof {
        reveal_strlit("\u{005D}");
        assert("\u{005D}"@ =~= seq!['\u{005D}']);
    }
    let v = match s {
        Some(v) => v,
        None => StringDirection::End,
    };
    ControlFunction::new_sequence("\u{005D}", params1(u32_to_dec(v.as_u32())))
}

/// Valid parameter values to the function [`SEE`].
#[derive(Clone, Copy, PartialEq, Eq, Debug)]
pub enum EditingExtend {
    /// The shifted part is limited to the active page in the presentation
    /// component.
    ActivePage,
    /// The shifted part is limited to the active line in the presentation
    /// component.
    ActiveLine,
    /// The shifted part is limited to the active field in the presentation
    /// component.
    ActiveField,
    /// The shifted part is limited to the active qualified area.
    QualifiedArea,
    /// The shifted part consists of the relevant part of the entire
    /// presentation component.
    All,
}

impl EditingExtend {
    /// The numeric parameter value this variant stands for.
    pub open spec fn code(self) -> int {
        match self {
            EditingExtend::ActivePage => 0,
            EditingExtend::ActiveLine => 1,
            EditingExtend::ActiveField => 2,
            EditingExtend::QualifiedArea => 3,
            EditingExtend::All => 4,
        }
    }

    /// The numeric parameter value this variant stands for.
    pub fn as_u32(self) -> (r: u32)
        ensures
            r as int == self.code(),
    {
        match self {
            EditingExtend::ActivePage => 0,
            EditingExtend::ActiveLine => 1,
            EditingExtend::ActiveField => 2,
            EditingExtend::QualifiedArea => 3,
            EditingExtend::All => 4,
        }
    }
}

/// Select Editing Extent.
///
/// `SEE` is used to establish the editing extent for subsequent character
/// or line insertion or deletion.  Default value for `s` is
/// [`EditingExtend::ActivePage`].
pub fn SEE(s: Option<EditingExtend>) -> (r: ControlFunction)
    ensures
        r@ == sequence_model(
            seq!['\u{0051}'],
            seq![dec_of(or_default(s, EditingExtend::ActivePage).code())],
        ),
        r@.wf(),
{
    proof {
        reveal_strlit("\u{0051}");
        assert("\u{0051}"@ =~= seq!['\u{0051}']);
    }
    let v = match s {
        Some(v) => v,
        None => EditingExtend::ActivePage,
    };
    ControlFunction::new_sequence("\u{0051}", params1(u32_to_dec(v.as_u32())))
}

/// Valid parameter values to the function [`SEF`].
#[derive(Clone, Copy, PartialEq, Eq, Debug)]
pub enum Load {
    /// Eject sheet, no new sheet loaded.
    NoLoad,
    /// Eject sheet and load another from the given bin.
    Bin(u32),
}

impl Load {
    /// The numeric parameter value this variant stands for.
    pub open spec fn code(self) -> int {
        match self {
            Load::NoLoad => 0,
            Load::Bin(bin) => bin as int,
        }
    }

    /// The numeric parameter value this variant stands for.
    pub fn as_u32(self) -> (r: u32)
        ensures
            r as int == self.code(),
    {
        match self {
            Load::NoLoad => 0,
            Load::Bin(bin) => bin,
        }
    }
}

/// Valid parameter values to the function [`SEF`].
#[derive(Clone, Copy, PartialEq, Eq, Debug)]
pub enum Stack {
    /// Eject sheet, no stacker specified.
    NoStack,
    /// Eject sheet into the specified stacker.
    Stacker(u32),
}

impl Stack {
    /// The numeric parameter value this variant stands for.
    pub open spec fn code(self) -> int {
        match self {
            Stack::NoStack => 0,
            Stack::Stacker(stacker) => stacker as int,
        }
    }

    /// The numeric parameter value this variant stands for.
    pub fn as_u32(self) -> (r: u32)
        ensures
            r as int == self.code(),
    {
        match self {
            Stack::NoStack => 0,
            Stack::Stacker(stacker) => stacker,
        }
    }
}

/// Sheet Eject And Feed.
///
/// `SEF` causes a sheet of paper to be ejected from a printing device into
/// a specified output stacker and another sheet to be loaded into the
/// printing device from a specified paper bin.  Default value for `l` is
/// [`Load::NoLoad`], and for `s` is [`Stack::NoStack`].
pub fn SEF(l: Option<Load>, s: Option<Stack>) -> (r: ControlFunction)
    ensures
        r@ == sequence_model(
            seq!['\u{0020}', '\u{0059}'],
            seq![
                dec_of(or_default(l, Load::NoLoad).code()),
                dec_of(or_default(s, Stack::NoStack).code()),
            ],
        ),
        r@.wf(),
{
    proof {
        reveal_strlit("\u{0020}\u{0059}");
        assert("\u{0020}\u{0059}"@ =~= seq!['\u{0020}', '\u{0059}']);
    }
    let a = match l {
        Some(v) => v,
        None => Load::NoLoad,
    };
    let b = match s {
        Some(v) => v,
        None => Stack::NoStack,
    };
    ControlFunction::new_sequence(
        "\u{0020}\u{0059}",
        params2(u32_to_dec(a.as_u32()), u32_to_dec(b.as_u32())),
    )
}

/// Valid parameter values to the function [`SGR`].
#[derive(Clone, Copy, PartialEq, Eq, Debug)]
pub enum GraphicRendition {
    /// Default rendition, cancels the effect of any preceding occurrence of
    /// `SGR` in the data stream.
    Default,
    /// Bold or increased intensity.
    HighIntensity,
    /// Faint, decreased intensity or second colour.
    LowIntensity,
    /// Italicized.
    Italicized,
    /// Singly underlined.
    Underlined,
    /// Slowly blinking (less than 150 per minute).
    SlowlyBlinking,
    /// Rapidly blinking (more than 150 per minute).
    RapidlyBlinking,
    /// Negative image.
    Negative,
    /// Concealed characters.
    Concealed,
    /// Crossed-out (characters still legible but marked as to be deleted).
    CrossedOut,
    /// Primary (default) font.
    PrimaryFont,
    /// First alternative font.
    FirstAlternativeFont,
    /// Second alternative font.
    SecondAlternativeFont,
    /// Third alternative font.
    ThirdAlternativeFont,
    /// Fourth alternative font.
    ForthAlternativeFont,
    /// Fifth alternative font.
    FifthAlternativeFont,
    /// Sixth alternative font.
    SixthAlternativeFont,
    /// Seventh alternative font.
    SeventhAlternativeFont,
    /// Eighth alternative font.
    EighthAlternativeFont,
    /// Ninth alternative font.
    NinthAlternativeFont,
    /// Fraktur (Gothic).
    Fraktur,
    /// Doubly underlined.
    DoublyUnderlined,
    /// Normal colour or normal intensity (neither bold nor faint).
    NormalIntensity,
    /// Not italicized, not fraktur.
    NormalStyle,
    /// Not underlined (neither singly nor doubly).
    NotUnderlined,
    /// Steady (not blinking).
    NotBlinking,
    /// Positive image.
    Positive,
    /// Revealed characters.
    Revealed,
    /// Not crossed out.
    NotCrossedOut,
    /// Black display.
    BlackForeground,
    /// Red display.
    RedForeground,
    /// Green display.
    GreenForeground,
    /// Yellow display.
    YellowForeground,
    /// Blue display.
    BlueForeground,
    /// Magenta display.
    MagentaForeground,
    /// Cyan display.
    CyanForeground,
    /// White display.
    WhiteForeground,
    /// Default display colour (implementation specific).
    DefaultForeground,
    /// Black background.
    BlackBackground,
    /// Red background.
    RedBackground,
    /// Green background.
    GreenBackground,
    /// Yellow background.
    YellowBackground,
    /// Blue background.
    BlueBackground,
    /// Magenta background.
    MagentaBackground,
    /// Cyan background.
    CyanBackground,
    /// White background.
    WhiteBackground,
    /// Default background colour (implementation specific).
    DefaultBackground,
    /// Framed.
    Framed,
    /// Encircled.
    Encircled,
    /// Overlined.
    Overlined,
    /// Not framed, not encircled.
    NotFramed,
    /// Not overlined.
    NotOverlined,
    /// Ideogram underline or right side line.
    IdeogramUnderline,
    /// Ideogram double underline or double line on the right side.
    IdeogramDoubleUnderline,
    /// Ideogram stress marking.
    IdeogramStressMarking,
    /// Cancel ideogram rendition settings.
    CancelIdeogramRendition,
}

impl GraphicRendition {
    /// The numeric parameter value this variant stands for.
    pub open spec fn code(self) -> int {
        match self {
            GraphicRendition::Default => 0,
            GraphicRendition::HighIntensity => 1,
            GraphicRendition::LowIntensity => 2,
            GraphicRendition::Italicized => 3,
            GraphicRendition::Underlined => 4,
            GraphicRendition::SlowlyBlinking => 5,
            GraphicRendition::RapidlyBlinking => 6,
            GraphicRendition::Negative => 7,
            GraphicRendition::Concealed => 8,
            GraphicRendition::CrossedOut => 9,
            GraphicRendition::PrimaryFont => 10,
            GraphicRendition::FirstAlternativeFont => 11,
            GraphicRendition::SecondAlternativeFont => 12,
            GraphicRendition::ThirdAlternativeFont => 13,
            GraphicRendition::ForthAlternativeFont => 14,
            GraphicRendition::FifthAlternativeFont => 15,
            GraphicRendition::SixthAlternativeFont => 16,
            GraphicRendition::SeventhAlternativeFont => 17,
            GraphicRendition::EighthAlternativeFont => 18,
            GraphicRendition::NinthAlternativeFont => 19,
            GraphicRendition::Fraktur => 20,
            GraphicRendition::DoublyUnderlined => 21,
            GraphicRendition::NormalIntensity => 22,
            GraphicRendition::NormalStyle => 23,
            GraphicRendition::NotUnderlined => 24,
            GraphicRendition::NotBlinking => 25,
            GraphicRendition::Positive => 27,
            GraphicRendition::Revealed => 28,
            GraphicRendition::NotCrossedOut => 29,
            GraphicRendition::BlackForeground => 30,
            GraphicRendition::RedForeground => 31,
            GraphicRendition::GreenForeground => 32,
            GraphicRendition::YellowForeground => 33,
            GraphicRendition::BlueForeground => 34,
            GraphicRendition::MagentaForeground => 35,
            GraphicRendition::CyanForeground => 36,
            GraphicRendition::WhiteForeground => 37,
            GraphicRendition::DefaultForeground => 39,
            GraphicRendition::BlackBackground => 40,
            GraphicRendition::RedBackground => 41,
            GraphicRendition::GreenBackground => 42,
            GraphicRendition::YellowBackground => 43,
            GraphicRendition::BlueBackground => 44,
            GraphicRendition::MagentaBackground => 45,
            GraphicRendition::CyanBackground => 46,
            GraphicRendition::WhiteBackground => 47,
            GraphicRendition::DefaultBackground => 49,
            GraphicRendition::Framed => 51,
            GraphicRendition::Encircled => 52,
            GraphicRendition::Overlined => 53,
            GraphicRendition::NotFramed => 54,
            GraphicRendition::NotOverlined => 55,
            GraphicRendition::IdeogramUnderline => 60,
            GraphicRendition::IdeogramDoubleUnderline => 61,
            GraphicRendition::IdeogramStressMarking => 62,
            GraphicRendition::CancelIdeogramRendition => 63,
        }
    }

    /// The numeric parameter value this variant stands for.
    pub fn as_u32(self) -> (r: u32)
        ensures
            r as int == self.code(),
    {
        match self {
            GraphicRendition::Default => 0,
            GraphicRendition::HighIntensity => 1,
            GraphicRendition::LowIntensity => 2,
            GraphicRendition::Italicized => 3,
            GraphicRendition::Underlined => 4,
            GraphicRendition::SlowlyBlinking => 5,
            GraphicRendition::RapidlyBlinking => 6,
            GraphicRendition::Negative => 7,
            GraphicRendition::Concealed => 8,
            GraphicRendition::CrossedOut => 9,
            GraphicRendition::PrimaryFont => 10,
            GraphicRendition::FirstAlternativeFont => 11,
            GraphicRendition::SecondAlternativeFont => 12,
            GraphicRendition::ThirdAlternativeFont => 13,
            GraphicRendition::ForthAlternativeFont => 14,
            GraphicRendition::FifthAlternativeFont => 15,
            GraphicRendition::SixthAlternativeFont => 16,
            GraphicRendition::SeventhAlternativeFont => 17,
            GraphicRendition::EighthAlternativeFont => 18,
            GraphicRendition::NinthAlternativeFont => 19,
            GraphicRendition::Fraktur => 20,
            GraphicRendition::DoublyUnderlined => 21,
            GraphicRendition::NormalIntensity => 22,
            GraphicRendition::NormalStyle => 23,
            GraphicRendition::NotUnderlined => 24,
            GraphicRendition::NotBlinking => 25,
            GraphicRendition::Positive => 27,
            GraphicRendition::Revealed => 28,
            GraphicRendition::NotCrossedOut => 29,
            GraphicRendition::BlackForeground => 30,
            GraphicRendition::RedForeground => 31,
            GraphicRendition::GreenForeground => 32,
            GraphicRendition::YellowForeground => 33,
            GraphicRendition::BlueForeground => 34,
            GraphicRendition::MagentaForeground => 35,
            GraphicRendition::CyanForeground => 36,
            GraphicRendition::WhiteForeground => 37,
            GraphicRendition::DefaultForeground => 39,
            GraphicRendition::BlackBackground => 40,
            GraphicRendition::RedBackground => 41,
            GraphicRendition::GreenBackground => 42,
            GraphicRendition::YellowBackground => 43,
            GraphicRendition::BlueBackground => 44,
            GraphicRendition::MagentaBackground => 45,
            GraphicRendition::CyanBackground => 46,
            GraphicRendition::WhiteBackground => 47,
            GraphicRendition::DefaultBackground => 49,
            GraphicRendition::Framed => 51,
            GraphicRendition::Encircled => 52,
            GraphicRendition::Overlined => 53,
            GraphicRendition::NotFramed => 54,
            GraphicRendition::NotOverlined => 55,
            GraphicRendition::IdeogramUnderline => 60,
            GraphicRendition::IdeogramDoubleUnderline => 61,
            GraphicRendition::IdeogramStressMarking => 62,
            GraphicRendition::CancelIdeogramRendition => 63,
        }
    }
}

/// The parameter entries standing for a list of graphic renditions: the
/// decimal rendition codes, in order.
pub open spec fn rendition_parameters(v: Seq<GraphicRendition>) -> Seq<Seq<char>> {
    v.map_values(|g: GraphicRendition| dec_of(g.code()))
}

/// Renders each graphic rendition code in decimal, in order.
fn rendition_params(v: &Vec<GraphicRendition>) -> (r: Vec<String>)
    ensures
        r.deep_view() == rendition_parameters(v@),
{
    let mut r: Vec<String> = Vec::new();
    let mut i: usize = 0;
    while i < v.len()
        invariant
            i <= v.len(),
            r@.len() == i,
            forall|k: int| 0 <= k < i ==> #[trigger] r@[k]@ == dec_of(v@[k].code()),
        decreases v.len() - i,
    {
        r.push(u32_to_dec(v[i].as_u32()));
        i = i + 1;
    }
    proof {
        assert forall|k: int| 0 <= k < v@.len() implies r.deep_view()[k] == rendition_parameters(
            v@,
        )[k] by {
            assert(r.deep_view()[k] == r@[k].deep_view());
            assert(rendition_parameters(v@)[k] == dec_of(v@[k].code()));
        }
        assert(r.deep_view() =~~= rendition_parameters(v@));
    }
    r
}

/// Select Graphic Rendition.
///
/// `SGR` is used to establish one or more graphic rendition aspects for
/// subsequent text.  Default value for `s` is a list holding only
/// [`GraphicRendition::Default`].
pub fn SGR(s: Option<Vec<GraphicRendition>>) -> (r: ControlFunction)
    ensures
        r@ == sequence_model(
            seq!['\u{006D}'],
            match s {
                Some(g) => rendition_parameters(g@),
                None => seq![dec_of(0)],
            },
        ),
        r@.wf(),
{
    proof {
        reveal_strlit("\u{006D}");
        assert("\u{006D}"@ =~= seq!['\u{006D}']);
    }
    match s {
        Some(g) => ControlFunction::new_sequence("\u{006D}", rendition_params(&g)),
        None => {
            let mut d: Vec<GraphicRendition> = Vec::new();
            d.push(GraphicRendition::Default);
            let r = ControlFunction::new_sequence("\u{006D}", rendition_params(&d));
            proof {
                assert(rendition_parameters(d@) =~= seq![dec_of(0)]);
            }
            r
        },
    }
}

/// Valid parameter values to the function [`SHS`].
#[derive(Clone, Copy, PartialEq, Eq, Debug)]
pub enum CharacterSpacing {
    /// 10 characters per 25.4 mm.
    TenCharacters,
    /// 12 characters per 25.4 mm.
    TwelveCharacters,
    /// 15 characters per 25.4 mm.
    FifteenCharacters,
    /// 6 characters per 25.4 mm.
    SixCharacters,
    /// 3 characters per 25.4 mm.
    ThreeCharacters,
    /// 9 characters per 25.4 mm.
    NineCharacters,
    /// 4 characters per 25.4 mm.
    FourCharacters,
}

impl CharacterSpacing {
    /// The numeric parameter value this variant stands for.
    pub open spec fn code(self) -> int {
        match self {
            CharacterSpacing::TenCharacters => 0,
            CharacterSpacing::TwelveCharacters => 1,
            CharacterSpacing::FifteenCharacters => 2,
            CharacterSpacing::SixCharacters => 3,
            CharacterSpacing::ThreeCharacters => 4,
            CharacterSpacing::NineCharacters => 5,
            CharacterSpacing::FourCharacters => 6,
        }
    }

    /// The numeric parameter value this variant stands for.
    pub fn as_u32(self) -> (r: u32)
        ensures
            r as int == self.code(),
    {
        match self {
            CharacterSpacing::TenCharacters => 0,
            CharacterSpacing::TwelveCharacters => 1,
            CharacterSpacing::FifteenCharacters => 2,
            CharacterSpacing::SixCharacters => 3,
            CharacterSpacing::ThreeCharacters => 4,
            CharacterSpacing::NineCharacters => 5,
            CharacterSpacing::FourCharacters => 6,
        }
    }
}

/// Select Character Spacing.
///
/// `SHS` is used to establish the character spacing for subsequent text.
/// Default value for `s` is [`CharacterSpacing::TenCharacters`].
pub fn SHS(s: Option<CharacterSpacing>) -> (r: ControlFunction)
    ensures
        r@ == sequence_model(
            seq!['\u{0020}', '\u{004B}'],
            seq![dec_of(or_default(s, CharacterSpacing::TenCharacters).code())],
        ),
        r@.wf(),
{
    proof {
        reveal_strlit("\u{0020}\u{004B}");
        assert("\u{0020}\u{004B}"@ =~= seq!['\u{0020}', '\u{004B}']);
    }
    let v = match s {
        Some(v) => v,
        None => CharacterSpacing::TenCharacters,
    };
    ControlFunction::new_sequence("\u{0020}\u{004B}", params1(u32_to_dec(v.as_u32())))
}

/// Valid parameter values to the function [`SIMD`].
#[derive(Clone, Copy, PartialEq, Eq, Debug)]
pub enum MovementDirection {
    /// The direction of implicit movement is the same as that of the
    /// character progression.
    Normal,
    /// The direction of implicit movement is opposite to that of the
    /// character progression.
    Opposite,
}

impl MovementDirection {
    /// The numeric parameter value this variant stands for.
    pub open spec fn code(self) -> int {
        match self {
            MovementDirection::Normal => 0,
            MovementDirection::Opposite => 1,
        }
    }

    /// The numeric parameter value this variant stands for.
    pub fn as_u32(self) -> (r: u32)
        ensures
            r as int == self.code(),
    {
        match self {
            MovementDirection::Normal => 0,
            MovementDirection::Opposite => 1,
        }
    }
}

/// Select Implicit Movement Direction.
///
/// `SIMD` is used to select the direction of implicit movement of the data
/// position relative to the character progression.  Default value for `s`
/// is [`MovementDirection::Normal`].
pub fn SIMD(s: Option<MovementDirection>) -> (r: ControlFunction)
    ensures
        r@ == sequence_model(
            seq!['\u{005E}'],
            seq![dec_of(or_default(s, MovementDirection::Normal).code())],
        ),
        r@.wf(),
{
    proof {
        reveal_strlit("\u{005E}");
        assert("\u{005E}"@ =~= seq!['\u{005E}']);
    }
    let v = match s {
        Some(v) => v,
        None => MovementDirection::Normal,
    };
    ControlFunction::new_sequence("\u{005E}", params1(u32_to_dec(v.as_u32())))
}

/// Scroll Left.
///
/// `SL` causes the data in the presentation component to be moved by `n`
/// character positions, such that the data appear to move to the left.
/// Default value for `n` is `1`.
pub fn SL(n: Option<u32>) -> (r: ControlFunction)
    ensures
        r@ == sequence_model(seq!['\u{0020}', '\u{0040}'], seq![dec_of(or_default(n, 1) as int)]),
        r@.wf(),
{
    proof {
        reveal_strlit("\u{0020}\u{0040}");
        assert("\u{0020}\u{0040}"@ =~= seq!['\u{0020}', '\u{0040}']);
    }
    let v = match n {
        Some(v) => v,
        None => 1,
    };
    ControlFunction::new_sequence("\u{0020}\u{0040}", params1(u32_to_dec(v)))
}

/// Set Line Home.
///
/// `SLH` is used to establish at character position `n` the position to
/// which the active position will be moved by subsequent occurrences of
/// Carriage Return and the like in the data stream.
pub fn SLH(n: u32) -> (r: ControlFunction)
    ensures
        r@ == sequence_model(seq!['\u{0020}', '\u{0055}'], seq![dec_of(n as int)]),
        r@.wf(),
{
    proof {
        reveal_strlit("\u{0020}\u{0055}");
        assert("\u{0020}\u{0055}"@ =~= seq!['\u{0020}', '\u{0055}']);
    }
    ControlFunction::new_sequence("\u{0020}\u{0055}", params1(u32_to_dec(n)))
}

/// Set Line Limit.
///
/// `SLL` is used to establish at character position `n` the position to
/// which the active position will be moved by subsequent occurrences of
/// Carriage Return with an opposite implicit movement direction.
pub fn SLL(n: u32) -> (r: ControlFunction)
    ensures
        r@ == sequence_model(seq!['\u{0020}', '\u{0056}'], seq![dec_of(n as int)]),
        r@.wf(),
{
    proof {
        reveal_strlit("\u{0020}\u{0056}");
        assert("\u{0020}\u{0056}"@ =~= seq!['\u{0020}', '\u{0056}']);
    }
    ControlFunction::new_sequence("\u{0020}\u{0056}", params1(u32_to_dec(n)))
}

/// Set Line Spacing.
///
/// `SLS` is used to establish the line spacing for subsequent text; `n`
/// specifies the line spacing.
pub fn SLS(n: u32) -> (r: ControlFunction)
    ensures
        r@ == sequence_model(seq!['\u{0020}', '\u{0068}'], seq![dec_of(n as int)]),
        r@.wf(),
{
    proof {
        reveal_strlit("\u{0020}\u{0068}");
        assert("\u{0020}\u{0068}"@ =~= seq!['\u{0020}', '\u{0068}']);
    }
    ControlFunction::new_sequence("\u{0020}\u{0068}", params1(u32_to_dec(n)))
}

/// Valid parameter values to the function [`SPD`].
#[derive(Clone, Copy, PartialEq, Eq, Debug)]
pub enum PresentationDirection {
    /// Horizontal line orientation, top-to-bottom line progression,
    /// left-to-right character path.
    HorizontalLinesTopToBottomLeftToRight,
    /// Vertical line orientation, right-to-left line progression,
    /// top-to-bottom character path.
    VerticalLinesRightToLeftTopToBottom,
    /// Vertical line orientation, left-to-right line progression,
    /// top-to-bottom character path.
    VerticalLinesLeftToRightTopToBottom,
    /// Horizontal line orientation, top-to-bottom line progression,
    /// right-to-left character path.
    HorizontalLinesTopToBottomRightToLeft,
    /// Vertical line orientation, left-to-right line progression,
    /// bottom-to-top character path.
    VerticalLinesLeftToRightBottomToTop,
    /// Horizontal line orientation, bottom-to-top line progression,
    /// right-to-left character path.
    HorizontalLinesBottomToTopRightToLeft,
    /// Horizontal line orientation, bottom-to-top line progression,
    /// left-to-right character path.
    HorizontalLinesBottomToTopLefToRight,
    /// Vertical line orientation, right-to-left line progression,
    /// bottom-to-top character path.
    VerticalLinesRightToLeftBottomToTop,
}

impl PresentationDirection {
    /// The numeric parameter value this variant stands for.
    pub open spec fn code(self) -> int {
        match self {
            PresentationDirection::HorizontalLinesTopToBottomLeftToRight => 0,
            PresentationDirection::VerticalLinesRightToLeftTopToBottom => 1,
            PresentationDirection::VerticalLinesLeftToRightTopToBottom => 2,
            PresentationDirection::HorizontalLinesTopToBottomRightToLeft => 3,
            PresentationDirection::VerticalLinesLeftToRightBottomToTop => 4,
            PresentationDirection::HorizontalLinesBottomToTopRightToLeft => 5,
            PresentationDirection::HorizontalLinesBottomToTopLefToRight => 6,
            PresentationDirection::VerticalLinesRightToLeftBottomToTop => 7,
        }
    }

    /// The numeric parameter value this variant stands for.
    pub fn as_u32(self) -> (r: u32)
        ensures
            r as int == self.code(),
    {
        match self {
            PresentationDirection::HorizontalLinesTopToBottomLeftToRight => 0,
            PresentationDirection::VerticalLinesRightToLeftTopToBottom => 1,
            PresentationDirection::VerticalLinesLeftToRightTopToBottom => 2,
            PresentationDirection::HorizontalLinesTopToBottomRightToLeft => 3,
            PresentationDirection::VerticalLinesLeftToRightBottomToTop => 4,
            PresentationDirection::HorizontalLinesBottomToTopRightToLeft => 5,
            PresentationDirection::HorizontalLinesBottomToTopLefToRight => 6,
            PresentationDirection::VerticalLinesRightToLeftBottomToTop => 7,
        }
    }
}

/// Valid parameter values to the function [`SPD`].
#[derive(Clone, Copy, PartialEq, Eq, Debug)]
pub enum PresentationDirectionScope {
    /// Undefined, implementation specific.
    Undefined,
    /// The content of the presentation component is updated to correspond
    /// to the content of the data component.
    InPresentationComponent,
    /// The content of the data component is updated to correspond to the
    /// content of the presentation component.
    InDataComponent,
}

impl PresentationDirectionScope {
    /// The numeric parameter value this variant stands for.
    pub open spec fn code(self) -> int {
        match self {
            PresentationDirectionScope::Undefined => 0,
            PresentationDirectionScope::InPresentationComponent => 1,
            PresentationDirectionScope::InDataComponent => 2,
        }
    }

    /// The numeric parameter value this variant stands for.
    pub fn as_u32(self) -> (r: u32)
        ensures
            r as int == self.code(),
    {
        match self {
            PresentationDirectionScope::Undefined => 0,
            PresentationDirectionScope::InPresentationComponent => 1,
            PresentationDirectionScope::InDataComponent => 2,
        }
    }
}

/// Select Presentation Directions.
///
/// `SPD` is used to select the line orientation, the line progression, and
/// the character path in the presentation component.  Default value for `s`
/// is [`PresentationDirection::HorizontalLinesTopToBottomLeftToRight`], and
/// for `t` is [`PresentationDirectionScope::Undefined`].
pub fn SPD(s: Option<PresentationDirection>, t: Option<PresentationDirectionScope>) -> (r:
    ControlFunction)
    ensures
        r@ == sequence_model(
            seq!['\u{0020}', '\u{0053}'],
            seq![
                dec_of(
                    or_default(s, PresentationDirection::HorizontalLinesTopToBottomLeftToRight)
                        .code(),
                ),
                dec_of(or_default(t, PresentationDirectionScope::Undefined).code()),
            ],
        ),
        r@.wf(),
{
    proof {
        reveal_strlit("\u{0020}\u{0053}");
        assert("\u{0020}\u{0053}"@ =~= seq!['\u{0020}', '\u{0053}']);
    }
    let a = match s {
        Some(v) => v,
        None => PresentationDirection::HorizontalLinesTopToBottomLeftToRight,
    };
    let b = match t {
        Some(v) => v,
        None => PresentationDirectionScope::Undefined,
    };
    ControlFunction::new_sequence(
        "\u{0020}\u{0053}",
        params2(u32_to_dec(a.as_u32()), u32_to_dec(b.as_u32())),
    )
}

/// Set Page Home.
///
/// `SPH` is used to establish at line position `n` the position to which
/// the active position will be moved by subsequent occurrences of Form Feed
/// in the data stream.
pub fn SPH(n: u32) -> (r: ControlFunction)
    ensures
        r@ == sequence_model(seq!['\u{0020}', '\u{0069}'], seq![dec_of(n as int)]),
        r@.wf(),
{
    proof {
        reveal_strlit("\u{0020}\u{0069}");
        assert("\u{0020}\u{0069}"@ =~= seq!['\u{0020}', '\u{0069}']);
    }
    ControlFunction::new_sequence("\u{0020}\u{0069}", params1(u32_to_dec(n)))
}

/// Spacing Increment.
///
/// `SPI` is used to establish the line spacing and the character spacing
/// for subsequent text: `l` specifies the line spacing, `c` the character
/// spacing.
pub fn SPI(l: u32, c: u32) -> (r: ControlFunction)
    ensures
        r@ == sequence_model(
            seq!['\u{0020}', '\u{0047}'],
            seq![dec_of(l as int), dec_of(c as int)],
        ),
        r@.wf(),
{
    proof {
        reveal_strlit("\u{0020}\u{0047}");
        assert("\u{0020}\u{0047}"@ =~= seq!['\u{0020}', '\u{0047}']);
    }
    ControlFunction::new_sequence("\u{0020}\u{0047}", params2(u32_to_dec(l), u32_to_dec(c)))
}

/// Set Page Limit.
///
/// `SPL` is used to establish at line position `n` the position beyond
/// which no implicit movement of the active position shall occur.
pub fn SPL(n: u32) -> (r: ControlFunction)
    ensures
        r@ == sequence_model(seq!['\u{0020}', '\u{006A}'], seq![dec_of(n as int)]),
        r@.wf(),
{
    proof {
        reveal_strlit("\u{0020}\u{006A}");
        assert("\u{0020}\u{006A}"@ =~= seq!['\u{0020}', '\u{006A}']);
    }
    ControlFunction::new_sequence("\u{0020}\u{006A}", params1(u32_to_dec(n)))
}

/// Valid parameter values to the function [`SPQR`].
#[derive(Clone, Copy, PartialEq, Eq, Debug)]
pub enum PrintQuality {
    /// Highest available print quality, low print speed.
    HighQualityLowSpeed,
    /// Medium print quality, medium print speed.
    MediumQualityMediumSpeed,
    /// Draft print quality, highest available print speed.
    LowQualityHighSpeed,
}

impl PrintQuality {
    /// The numeric parameter value this variant stands for.
    pub open spec fn code(self) -> int {
        match self {
            PrintQuality::HighQualityLowSpeed => 0,
            PrintQuality::MediumQualityMediumSpeed => 1,
            PrintQuality::LowQualityHighSpeed => 2,
        }
    }

    /// The numeric parameter value this variant stands for.
    pub fn as_u32(self) -> (r: u32)
        ensures
            r as int == self.code(),
    {
        match self {
            PrintQuality::HighQualityLowSpeed => 0,
            PrintQuality::MediumQualityMediumSpeed => 1,
            PrintQuality::LowQualityHighSpeed => 2,
        }
    }
}

/// Select Print Quality and Rapidity.
///
/// `SPQR` is used to select the relative print quality and the print speed
/// for devices where the output quality and speed are inversely related.
/// Default value for `s` is [`PrintQuality::HighQualityLowSpeed`].
pub fn SPQR(s: Option<PrintQuality>) -> (r: ControlFunction)
    ensures
        r@ == sequence_model(
            seq!['\u{0020}', '\u{0058}'],
            seq![dec_of(or_default(s, PrintQuality::HighQualityLowSpeed).code())],
        ),
        r@.wf(),
{
    proof {
        reveal_strlit("\u{0020}\u{0058}");
        assert("\u{0020}\u{0058}"@ =~= seq!['\u{0020}', '\u{0058}']);
    }
    let v = match s {
        Some(v) => v,
        None => PrintQuality::HighQualityLowSpeed,
    };
    ControlFunction::new_sequence("\u{0020}\u{0058}", params1(u32_to_dec(v.as_u32())))
}

/// Scroll Right.
///
/// `SR` causes the data in the presentation component to be moved by `n`
/// character positions, such that the data appear to move to the right.
/// Default value for `n` is `1`.
pub fn SR(n: Option<u32>) -> (r: ControlFunction)
    ensures
        r@ == sequence_model(seq!['\u{0020}', '\u{0058}'], seq![dec_of(or_default(n, 1) as int)]),
        r@.wf(),
{
    proof {
        reveal_strlit("\u{0020}\u{0058}");
        assert("\u{0020}\u{0058}"@ =~= seq!['\u{0020}', '\u{0058}']);
    }
    let v = match n {
        Some(v) => v,
        None => 1,
    };
    ControlFunction::new_sequence("\u{0020}\u{0058}", params1(u32_to_dec(v)))
}

/// Set Reduced Character Separation.
///
/// `SRCS` is used to establish reduced inter-character escapement for
/// subsequent text.  Default value for `n` is `0`.
pub fn SRCS(n: Option<u32>) -> (r: ControlFunction)
    ensures
        r@ == sequence_model(seq!['\u{0020}', '\u{0066}'], seq![dec_of(or_default(n, 0) as int)]),
        r@.wf(),
{
    proof {
        reveal_strlit("\u{0020}\u{0066}");
        assert("\u{0020}\u{0066}"@ =~= seq!['\u{0020}', '\u{0066}']);
    }
    let v = match n {
        Some(v) => v,
        None => 0,
    };
    ControlFunction::new_sequence("\u{0020}\u{0066}", params1(u32_to_dec(v)))
}

/// Valid parameter values to the function [`SRS`].
#[derive(Clone, Copy, PartialEq, Eq, Debug)]
pub enum ReversedString {
    /// End of a reversed string; re-establish the previous direction.
    End,
    /// Beginning of a reversed string; reverse the direction.
    Start,
}

impl ReversedString {
    /// The numeric parameter value this variant stands for.
    pub open spec fn code(self) -> int {
        match self {
            ReversedString::End => 0,
            ReversedString::Start => 1,
        }
    }

    /// The numeric parameter value this variant stands for.
    pub fn as_u32(self) -> (r: u32)
        ensures
            r as int == self.code(),
    {
        match self {
            ReversedString::End => 0,
            ReversedString::Start => 1,
        }
    }
}

/// Start Reversed String.
///
/// `SRS` is used to establish in the data component the beginning and the
/// end of a string of characters as well as the direction of the string,
/// opposite to that currently established.  Default value for `s` is
/// [`ReversedString::End`].
pub fn SRS(s: Option<ReversedString>) -> (r: ControlFunction)
    ensures
        r@ == sequence_model(
            seq!['\u{005B}'],
            seq![dec_of(or_default(s, ReversedString::End).code())],
        ),
        r@.wf(),
{
    proof {
        reveal_strlit("\u{005B}");
        assert("\u{005B}"@ =~= seq!['\u{005B}']);
    }
    let v = match s {
        Some(v) => v,
        None => ReversedString::End,
    };
    ControlFunction::new_sequence("\u{005B}", params1(u32_to_dec(v.as_u32())))
}

/// Valid parameter values to the function [`SSU`].
#[derive(Clone, Copy, PartialEq, Eq, Debug)]
pub enum SizeUnit {
    /// The dimensions of this unit are device-dependent.
    Character,
    /// Millimetre.
    Millimetre,
    /// Computer Decipoint (0.03528 mm - 1/720 of 25.4 mm).
    ComputerDecipoint,
    /// Decidot (0.03759 mm - 10/266 mm).
    Decidot,
    /// Mil (0.0254 mm - 1/1000 of 25.4 mm).
    Mil,
    /// Basic Measuring Unit (0.02117 mm - 1/1200 of 25.4 mm).
    BasicMeasuringUnit,
    /// Micrometre (0.001 mm).
    Micrometer,
    /// Pixel: the smallest increment that can be specified in a device.
    Pixel,
    /// Decipoint (0.03514 mm - 35/996 mm).
    Decipoint,
}

impl SizeUnit {
    /// The numeric parameter value this variant stands for.
    pub open spec fn code(self) -> int {
        match self {
            SizeUnit::Character => 0,
            SizeUnit::Millimetre => 1,
            SizeUnit::ComputerDecipoint => 2,
            SizeUnit::Decidot => 3,
            SizeUnit::Mil => 4,
            SizeUnit::BasicMeasuringUnit => 5,
            SizeUnit::Micrometer => 6,
            SizeUnit::Pixel => 7,
            SizeUnit::Decipoint => 8,
        }
    }

    /// The numeric parameter value this variant stands for.
    pub fn as_u32(self) -> (r: u32)
        ensures
            r as int == self.code(),
    {
        match self {
            SizeUnit::Character => 0,
            SizeUnit::Millimetre => 1,
            SizeUnit::ComputerDecipoint => 2,
            SizeUnit::Decidot => 3,
            SizeUnit::Mil => 4,
            SizeUnit::BasicMeasuringUnit => 5,
            SizeUnit::Micrometer => 6,
            SizeUnit::Pixel => 7,
            SizeUnit::Decipoint => 8,
        }
    }
}

/// Select Size Unit.
///
/// `SSU` is used to establish the unit in which the numeric parameters of
/// certain control functions are expressed.  Default value for `s` is
/// [`SizeUnit::Character`].
pub fn SSU(s: Option<SizeUnit>) -> (r: ControlFunction)
    ensures
        r@ == sequence_model(
            seq!['\u{0020}', '\u{0049}'],
            seq![dec_of(or_default(s, SizeUnit::Character).code())],
        ),
        r@.wf(),
{
    proof {
        reveal_strlit("\u{0020}\u{0049}");
        assert("\u{0020}\u{0049}"@ =~= seq!['\u{0020}', '\u{0049}']);
    }
    let v = match s {
        Some(v) => v,
        None => SizeUnit::Character,
    };
    ControlFunction::new_sequence("\u{0020}\u{0049}", params1(u32_to_dec(v.as_u32())))
}

/// Set Space Width.
///
/// `SSW` is used to establish for subsequent text the character escapement
/// associated with the character SPACE; `n` specifies the escapement.
pub fn SSW(n: u32) -> (r: ControlFunction)
    ensures
        r@ == sequence_model(seq!['\u{0020}', '\u{005B}'], seq![dec_of(n as int)]),
        r@.wf(),
{
    proof {
        reveal_strlit("\u{0020}\u{005B}");
        assert("\u{0020}\u{005B}"@ =~= seq!['\u{0020}', '\u{005B}']);
    }
    ControlFunction::new_sequence("\u{0020}\u{005B}", params1(u32_to_dec(n)))
}

/// Selective Tabulation.
///
/// `STAB` causes subsequent text in the presentation component to be
/// aligned according to the position and the properties of a tabulation
/// stop which is selected from a list according to the value of the
/// parameter `s`.
pub fn STAB(s: u32) -> (r: ControlFunction)
    ensures
        r@ == sequence_model(seq!['\u{0020}', '\u{005E}'], seq![dec_of(s as int)]),
        r@.wf(),
{
    proof {
        reveal_strlit("\u{0020}\u{005E}");
        assert("\u{0020}\u{005E}"@ =~= seq!['\u{0020}', '\u{005E}']);
    }
    ControlFunction::new_sequence("\u{0020}\u{005E}", params1(u32_to_dec(s)))
}

/// Scroll Up.
///
/// `SU` causes the data in the presentation component to be moved by `n`
/// line positions, such that the data appear to move up.  Default value for
/// `n` is `1`.
pub fn SU(n: Option<u32>) -> (r: ControlFunction)
    ensures
        r@ == sequence_model(seq!['\u{0053}'], seq![dec_of(or_default(n, 1) as int)]),
        r@.wf(),
{
    proof {
        reveal_strlit("\u{0053}");
        assert("\u{0053}"@ =~= seq!['\u{0053}']);
    }
    let v = match n {
        Some(v) => v,
        None => 1,
    };
    ControlFunction::new_sequence("\u{0053}", params1(u32_to_dec(v)))
}

/// Valid parameter values to the function [`SVS`].
#[derive(Clone, Copy, PartialEq, Eq, Debug)]
pub enum LineSpacing {
    /// Six lines per 25.4 mm.
    SixLinesPer25,
    /// Four lines per 25.4 mm.
    FourLinesPer25,
    /// Three lines per 25.4 mm.
    ThreeLinesPer25,
    /// Twelve lines per 25.4 mm.
    TwelveLinesPer25,
    /// Eight lines per 25.4 mm.
    EightLinesPer25,
    /// Six lines per 30 mm.
    SixLinesPer30,
    /// Four lines per 30 mm.
    FourLinesPer30,
    /// Three lines per 30 mm.
    ThreeLinesPer30,
    /// Twelve lines per 30 mm.
    TwelveLinesPer30,
    /// Two lines per 25.4 mm.
    TwoLinesPer25,
}

impl LineSpacing {
    /// The numeric parameter value this variant stands for.
    pub open spec fn code(self) -> int {
        match self {
            LineSpacing::SixLinesPer25 => 0,
            LineSpacing::FourLinesPer25 => 1,
            LineSpacing::ThreeLinesPer25 => 2,
            LineSpacing::TwelveLinesPer25 => 3,
            LineSpacing::EightLinesPer25 => 4,
            LineSpacing::SixLinesPer30 => 5,
            LineSpacing::FourLinesPer30 => 6,
            LineSpacing::ThreeLinesPer30 => 7,
            LineSpacing::TwelveLinesPer30 => 8,
            LineSpacing::TwoLinesPer25 => 9,
        }
    }

    /// The numeric parameter value this variant stands for.
    pub fn as_u32(self) -> (r: u32)
        ensures
            r as int == self.code(),
    {
        match self {
            LineSpacing::SixLinesPer25 => 0,
            LineSpacing::FourLinesPer25 => 1,
            LineSpacing::ThreeLinesPer25 => 2,
            LineSpacing::TwelveLinesPer25 => 3,
            LineSpacing::EightLinesPer25 => 4,
            LineSpacing::SixLinesPer30 => 5,
            LineSpacing::FourLinesPer30 => 6,
            LineSpacing::ThreeLinesPer30 => 7,
            LineSpacing::TwelveLinesPer30 => 8,
            LineSpacing::TwoLinesPer25 => 9,
        }
    }
}

/// Select Line Spacing.
///
/// `SVS` is used to establish the line spacing for subsequent text.
/// Default value for `s` is [`LineSpacing::SixLinesPer25`].
pub fn SVS(s: Option<LineSpacing>) -> (r: ControlFunction)
    ensures
        r@ == sequence_model(
            seq!['\u{0020}', '\u{004C}'],
            seq![dec_of(or_default(s, LineSpacing::SixLinesPer25).code())],
        ),
        r@.wf(),
{
    proof {
        reveal_strlit("\u{0020}\u{004C}");
        assert("\u{0020}\u{004C}"@ =~= seq!['\u{0020}', '\u{004C}']);
    }
    let v = match s {
        Some(v) => v,
        None => LineSpacing::SixLinesPer25,
    };
    ControlFunction::new_sequence("\u{0020}\u{004C}", params1(u32_to_dec(v.as_u32())))
}

/// Tabulation Aligned Centred.
///
/// `TAC` causes a character tabulation stop calling for centring to be set
/// at character position `n` in the active line and subsequent lines.
pub fn TAC(n: u32) -> (r: ControlFunction)
    ensures
        r@ == sequence_model(seq!['\u{0020}', '\u{0062}'], seq![dec_of(n as int)]),
        r@.wf(),
{
    proof {
        reveal_strlit("\u{0020}\u{0062}");
        assert("\u{0020}\u{0062}"@ =~= seq!['\u{0020}', '\u{0062}']);
    }
    ControlFunction::new_sequence("\u{0020}\u{0062}", params1(u32_to_dec(n)))
}

/// Tabulation Aligned Leading Edge.
///
/// `TALE` causes a character tabulation stop calling for leading edge
/// alignment to be set at character position `n` in the active line and
/// subsequent lines.
pub fn TALE(n: u32) -> (r: ControlFunction)
    ensures
        r@ == sequence_model(seq!['\u{0020}', '\u{0061}'], seq![dec_of(n as int)]),
        r@.wf(),
{
    proof {
        reveal_strlit("\u{0020}\u{0061}");
        assert("\u{0020}\u{0061}"@ =~= seq!['\u{0020}', '\u{0061}']);
    }
    ControlFunction::new_sequence("\u{0020}\u{0061}", params1(u32_to_dec(n)))
}

/// Tabulation Aligned Trailing Edge.
///
/// `TATE` causes a character tabulation stop calling for trailing edge
/// alignment to be set at character position `n` in the active line and
/// subsequent lines.
pub fn TATE(n: u32) -> (r: ControlFunction)
    ensures
        r@ == sequence_model(seq!['\u{0020}', '\u{0060}'], seq![dec_of(n as int)]),
        r@.wf(),
{
    proof {
        reveal_strlit("\u{0020}\u{0060}");
        assert("\u{0020}\u{0060}"@ =~= seq!['\u{0020}', '\u{0060}']);
    }
    ControlFunction::new_sequence("\u{0020}\u{0060}", params1(u32_to_dec(n)))
}

/// Valid parameter values to the function [`TBC`].
#[derive(Clone, Copy, PartialEq, Eq, Debug)]
pub enum ClearTabulation {
    /// Clear the character tabulation stop at the active presentation
    /// position.
    CharacterTabulationStopActivePosition,
    /// Clear the line tabulation stop at the active line.
    LineTabulationStopActiveLine,
    /// Clear all character tabulation stops at the active line.
    AllCharacterTabulationStopsActiveLine,
    /// Clear all character tabulation stops.
    AllCharacterTabulationStops,
    /// Clear all line tabulation stops.
    AllLineTabulationStops,
    /// Clear all tabulation stops.
    AllTabulationStops,
}

impl ClearTabulation {
    /// The numeric parameter value this variant stands for.
    pub open spec fn code(self) -> int {
        match self {
            ClearTabulation::CharacterTabulationStopActivePosition => 0,
            ClearTabulation::LineTabulationStopActiveLine => 1,
            ClearTabulation::AllCharacterTabulationStopsActiveLine => 2,
            ClearTabulation::AllCharacterTabulationStops => 3,
            ClearTabulation::AllLineTabulationStops => 4,
            ClearTabulation::AllTabulationStops => 5,
        }
    }

    /// The numeric parameter value this variant stands for.
    pub fn as_u32(self) -> (r: u32)
        ensures
            r as int == self.code(),
    {
        match self {
            ClearTabulation::CharacterTabulationStopActivePosition => 0,
            ClearTabulation::LineTabulationStopActiveLine => 1,
            ClearTabulation::AllCharacterTabulationStopsActiveLine => 2,
            ClearTabulation::AllCharacterTabulationStops => 3,
            ClearTabulation::AllLineTabulationStops => 4,
            ClearTabulation::AllTabulationStops => 5,
        }
    }
}

/// Tabulation Clear.
///
/// `TBC` causes one or more tabulation stops in the presentation component
/// to be cleared, depending on the parameter value.  Default value for `s`
/// is [`ClearTabulation::CharacterTabulationStopActivePosition`].
pub fn TBC(s: Option<ClearTabulation>) -> (r: ControlFunction)
    ensures
        r@ == sequence_model(
            seq!['\u{0067}'],
            seq![
                dec_of(or_default(s, ClearTabulation::CharacterTabulationStopActivePosition).code()),
            ],
        ),
        r@.wf(),
{
    proof {
        reveal_strlit("\u{0067}");
        assert("\u{0067}"@ =~= seq!['\u{0067}']);
    }
    let v = match s {
        Some(v) => v,
        None => ClearTabulation::CharacterTabulationStopActivePosition,
    };
    ControlFunction::new_sequence("\u{0067}", params1(u32_to_dec(v.as_u32())))
}

/// Tabulation Centred on Character.
///
/// `TCC` causes a character tabulation stop calling for alignment of a
/// target graphic character to be set at character position `n` in the
/// active line and subsequent lines; `m` gives the code table position of
/// the target character.  Default value for `m` is `32`.
pub fn TCC(n: u32, m: Option<u32>) -> (r: ControlFunction)
    ensures
        r@ == sequence_model(
            seq!['\u{0020}', '\u{0063}'],
            seq![dec_of(n as int), dec_of(or_default(m, 32) as int)],
        ),
        r@.wf(),
{
    proof {
        reveal_strlit("\u{0020}\u{0063}");
        assert("\u{0020}\u{0063}"@ =~= seq!['\u{0020}', '\u{0063}']);
    }
    let k = match m {
        Some(v) => v,
        None => 32,
    };
    ControlFunction::new_sequence("\u{0020}\u{0063}", params2(u32_to_dec(n), u32_to_dec(k)))
}

/// Tabulation Stop Remove.
///
/// `TSR` causes any character tabulation stop at character position `n` in
/// the active line and subsequent lines to be cleared.
pub fn TSR(n: u32) -> (r: ControlFunction)
    ensures
        r@ == sequence_model(seq!['\u{0020}', '\u{0064}'], seq![dec_of(n as int)]),
        r@.wf(),
{
    proof {
        reveal_strlit("\u{0020}\u{0064}");
        assert("\u{0020}\u{0064}"@ =~= seq!['\u{0020}', '\u{0064}']);
    }
    ControlFunction::new_sequence("\u{0020}\u{0064}", params1(u32_to_dec(n)))
}

/// Thin Space Specification.
///
/// `TSS` is used to establish the width of a thin space for subsequent
/// text; `n` specifies the width.
pub fn TSS(n: u32) -> (r: ControlFunction)
    ensures
        r@ == sequence_model(seq!['\u{0020}', '\u{0045}'], seq![dec_of(n as int)]),
        r@.wf(),
{
    proof {
        reveal_strlit("\u{0020}\u{0045}");
        assert("\u{0020}\u{0045}"@ =~= seq!['\u{0020}', '\u{0045}']);
    }
    ControlFunction::new_sequence("\u{0020}\u{0045}", params1(u32_to_dec(n)))
}

/// Line Position Absolute.
///
/// `VPA` causes the active data position to be moved to line position `n`
/// in the data component.  Default value for `n` is `1`.
pub fn VPA(n: Option<u32>) -> (r: ControlFunction)
    ensures
        r@ == sequence_model(seq!['\u{0064}'], seq![dec_of(or_default(n, 1) as int)]),
        r@.wf(),
{
    proof {
        reveal_strlit("\u{0064}");
        assert("\u{0064}"@ =~= seq!['\u{0064}']);
    }
    let v = match n {
        Some(v) => v,
        None => 1,
    };
    ControlFunction::new_sequence("\u{0064}", params1(u32_to_dec(v)))
}

/// Line Position Backward.
///
/// `VPB` causes the active data position to be moved by `n` line positions
/// in the data component in a direction opposite to that of the line
/// progression.  Default value for `n` is `1`.
pub fn VPB(n: Option<u32>) -> (r: ControlFunction)
    ensures
        r@ == sequence_model(seq!['\u{006B}'], seq![dec_of(or_default(n, 1) as int)]),
        r@.wf(),
{
    proof {
        reveal_strlit("\u{006B}");
        assert("\u{006B}"@ =~= seq!['\u{006B}']);
    }
    let v = match n {
        Some(v) => v,
        None => 1,
    };
    ControlFunction::new_sequence("\u{006B}", params1(u32_to_dec(v)))
}

/// Line Position Forward.
///
/// `VPR` causes the active data position to be moved by `n` line positions
/// in the data component in the direction of the line progression.  Default
/// value for `n` is `1`.
pub fn VPR(n: Option<u32>) -> (r: ControlFunction)
    ensures
        r@ == sequence_model(seq!['\u{0065}'], seq![dec_of(or_default(n, 1) as int)]),
        r@.wf(),
{
    proof {
        reveal_strlit("\u{0065}");
        assert("\u{0065}"@ =~= seq!['\u{0065}']);
    }
    let v = match n {
        Some(v) => v,
        None => 1,
    };
    ControlFunction::new_sequence("\u{0065}", params1(u32_to_dec(v)))
}

/// The parameter entries standing for a list of modes: the decimal mode
/// numbers, in order.
pub open spec fn mode_parameters(v: Seq<Mode>) -> Seq<Seq<char>> {
    v.map_values(|m: Mode| dec_of(m.code()))
}

/// Renders each mode number in decimal, in order.
fn mode_params(v: &Vec<Mode>) -> (r: Vec<String>)
    ensures
        r.deep_view() == mode_parameters(v@),
{
    let mut r: Vec<String> = Vec::new();
    let mut i: usize = 0;
    while i < v.len()
        invariant
            i <= v.len(),
            r@.len() == i,
            forall|k: int| 0 <= k < i ==> #[trigger] r@[k]@ == dec_of(v@[k].code()),
        decreases v.len() - i,
    {
        r.push(u32_to_dec(v[i].as_u32()));
        i = i + 1;
    }
    proof {
        assert forall|k: int| 0 <= k < v@.len() implies r.deep_view()[k] == mode_parameters(v@)[k]
            by {
            assert(r.deep_view()[k] == r@[k].deep_view());
            assert(mode_parameters(v@)[k] == dec_of(v@[k].code()));
        }
        assert(r.deep_view() =~~= mode_parameters(v@));
    }
    r
}

/// Reset Mode.
///
/// `RM` causes each mode in the list to be reset.
pub fn RM(v: Vec<Mode>) -> (r: ControlFunction)
    ensures
        r@ == sequence_model(seq!['\u{006C}'], mode_parameters(v@)),
        r@.wf(),
{
    proof {
        reveal_strlit("\u{006C}");
        assert("\u{006C}"@ =~= seq!['\u{006C}']);
    }
    let parameters = mode_params(&v);
    ControlFunction::new_sequence("\u{006C}", parameters)
}

/// Set Mode.
///
/// `SM` causes each mode in the list to be set.
pub fn SM(s: Vec<Mode>) -> (r: ControlFunction)
    ensures
        r@ == sequence_model(seq!['\u{0068}'], mode_parameters(s@)),
        r@.wf(),
{
    proof {
        reveal_strlit("\u{0068}");
        assert("\u{0068}"@ =~= seq!['\u{0068}']);
    }
    let parameters = mode_params(&s);
    ControlFunction::new_sequence("\u{0068}", parameters)
}

} // verus!
