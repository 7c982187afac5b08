//! Modes.
//!
//! The ECMA-48 standard defines a number of device modes, each with a reset
//! state and a set state.  A mode is set with Set Mode
//! ([`SM`][crate::control_sequences::SM]) and reset with Reset Mode
//! ([`RM`][crate::control_sequences::RM]); the convenience methods
//! [`Mode::set`] and [`Mode::reset`] build those control sequences for a
//! single mode.
#![allow(non_snake_case)]

use vstd::prelude::*;

use crate::control_sequences::mode_parameters;
use crate::control_sequences::RM;
use crate::control_sequences::SM;
use crate::sequence_model;
use crate::text::dec_of;
use crate::ControlFunction;

verus! {

/// Device Modes.
#[derive(Clone, Copy, PartialEq, Eq, Structural, Debug)]
pub enum Mode {
    /// Guarded Area Transfer Mode `GATM`.
    GuardedAreaTransferMode,
    /// Keyboard Action Mode `KAM`.
    KeyboardActionMode,
    /// Control Presentation Mode `CRM`.
    ControlPresentationMode,
    /// Insertion Replacement Mode `IRM`.
    InsertionReplacementMode,
    /// Status Report Transfer Mode `SRTM`.
    StatusReportTransferMode,
    /// Erasure Mode `ERM`.
    ErasureMode,
    /// Line Editing Mode `VEM`.
    LineEditingMode,
    /// Bi-directional Support Mode `BDSM`.
    BiDirectionalSupportMode,
    /// Device Component Select Mode `DCSM`.
    DeviceComponentSelectMode,
    /// Character Editing Mode `HEM`.
    CharacterEditingMode,
    /// Positioning Unit Mode `PUM`.
    PositioningUnitMode,
    /// Send/Receive Mode `SRM`.
    SendReceiveMode,
    /// Format Effector Action Mode `FEAM`.
    FormatEffectorActionMode,
    /// Format Effector Transfer Mode `FETM`.
    FormatEffectorTransferMode,
    /// Multiple Area Transfer Mode `MATM`.
    MultipleAreaTransferMode,
    /// Transfer Termination Mode `TTM`.
    TransferTerminationMode,
    /// Selected Area Transfer Mode `SATM`.
    SelectedAreaTransferMode,
    /// Tabulation Stop Mode `TSM`.
    TabulationStopMode,
    /// Graphic Rendition Combination Mode `GRCM`.
    GraphicRenditionCombinationMode,
    /// Zero Default Mode `ZDM`.
    ZeroDefaultMode,
}

impl Mode {
    /// The mode number the standard assigns to this mode.
    pub open spec fn code(self) -> int {
        match self {
            Mode::GuardedAreaTransferMode => 1,
            Mode::KeyboardActionMode => 2,
            Mode::ControlPresentationMode => 3,
            Mode::InsertionReplacementMode => 4,
            Mode::StatusReportTransferMode => 5,
            Mode::ErasureMode => 6,
            Mode::LineEditingMode => 7,
            Mode::BiDirectionalSupportMode => 8,
            Mode::DeviceComponentSelectMode => 9,
            Mode::CharacterEditingMode => 10,
            Mode::PositioningUnitMode => 11,
            Mode::SendReceiveMode => 12,
            Mode::FormatEffectorActionMode => 13,
            Mode::FormatEffectorTransferMode => 14,
            Mode::MultipleAreaTransferMode => 15,
            Mode::TransferTerminationMode => 16,
            Mode::SelectedAreaTransferMode => 17,
            Mode::TabulationStopMode => 18,
            Mode::GraphicRenditionCombinationMode => 21,
            Mode::ZeroDefaultMode => 22,
        }
    }

    /// The mode number the standard assigns to this mode.
    pub fn as_u32(self) -> (r: u32)
        ensures
            r as int == self.code(),
    {
        match self {
            Mode::GuardedAreaTransferMode => 1,
            Mode::KeyboardActionMode => 2,
            Mode::ControlPresentationMode => 3,
            Mode::InsertionReplacementMode => 4,
            Mode::StatusReportTransferMode => 5,
            Mode::ErasureMode => 6,
            Mode::LineEditingMode => 7,
            Mode::BiDirectionalSupportMode => 8,
            Mode::DeviceComponentSelectMode => 9,
            Mode::CharacterEditingMode => 10,
            Mode::PositioningUnitMode => 11,
            Mode::SendReceiveMode => 12,
            Mode::FormatEffectorActionMode => 13,
            Mode::FormatEffectorTransferMode => 14,
            Mode::MultipleAreaTransferMode => 15,
            Mode::TransferTerminationMode => 16,
            Mode::SelectedAreaTransferMode => 17,
            Mode::TabulationStopMode => 18,
            Mode::GraphicRenditionCombinationMode => 21,
            Mode::ZeroDefaultMode => 22,
        }
    }

    /// Set the mode: the Set Mode control sequence for this mode alone.
    pub fn set(self) -> (r: ControlFunction)
        ensures
            r@ == sequence_model(seq!['\u{0068}'], seq![dec_of(self.code())]),
            r@.wf(),
    {
        let mut v: Vec<Mode> = Vec::new();
        v.push(self);
        let r = SM(v);
        proof {
            assert(mode_parameters(v@) =~= seq![dec_of(self.code())]);
        }
        r
    }

    /// Reset the mode: the Reset Mode control sequence for this mode alone.
    pub fn reset(self) -> (r: ControlFunction)
        ensures
            r@ == sequence_model(seq!['\u{006C}'], seq![dec_of(self.code())]),
            r@.wf(),
    {
        let mut v: Vec<Mode> = Vec::new();
        v.push(self);
        let r = RM(v);
        proof {
            assert(mode_parameters(v@) =~= seq![dec_of(self.code())]);
        }
        r
    }
}

/// Guarded Area Transfer Mode `GATM`.
pub fn GATM() -> (r: Mode)
    ensures
        r == Mode::GuardedAreaTransferMode,
{
    Mode::GuardedAreaTransferMode
}

/// Keyboard Action Mode `KAM`.
pub fn KAM() -> (r: Mode)
    ensures
        r == Mode::KeyboardActionMode,
{
    Mode::KeyboardActionMode
}

/// Control Presentation Mode `CRM`.
pub fn CRM() -> (r: Mode)
    ensures
        r == Mode::ControlPresentationMode,
{
    Mode::ControlPresentationMode
}

/// Insertion Replacement Mode `IRM`.
pub fn IRM() -> (r: Mode)
    ensures
        r == Mode::InsertionReplacementMode,
{
    Mode::InsertionReplacementMode
}

/// Status Report Transfer Mode `SRTM`.
pub fn SRTM() -> (r: Mode)
    ensures
        r == Mode::StatusReportTransferMode,
{
    Mode::StatusReportTransferMode
}

/// Erasure Mode `ERM`.
pub fn ERM() -> (r: Mode)
    ensures
        r == Mode::ErasureMode,
{
    Mode::ErasureMode
}

/// Line Editing Mode `VEM`.
pub fn VEM() -> (r: Mode)
    ensures
        r == Mode::LineEditingMode,
{
    Mode::LineEditingMode
}

/// Bi-directional Support Mode `BDSM`.
pub fn BDSM() -> (r: Mode)
    ensures
        r == Mode::BiDirectionalSupportMode,
{
    Mode::BiDirectionalSupportMode
}

/// Device Component Select Mode `DCSM`.
pub fn DCSM() -> (r: Mode)
    ensures
        r == Mode::DeviceComponentSelectMode,
{
    Mode::DeviceComponentSelectMode
}

/// Character Editing Mode `HEM`.
pub fn HEM() -> (r: Mode)
    ensures
        r == Mode::CharacterEditingMode,
{
    Mode::CharacterEditingMode
}

/// Positioning Unit Mode `PUM`.
pub fn PUM() -> (r: Mode)
    ensures
        r == Mode::PositioningUnitMode,
{
    Mode::PositioningUnitMode
}

/// Send/Receive Mode `SRM`.
pub fn SRM() -> (r: Mode)
    ensures
        r == Mode::SendReceiveMode,
{
    Mode::SendReceiveMode
}

/// Format Effector Action Mode `FEAM`.
pub fn FEAM() -> (r: Mode)
    ensures
        r == Mode::FormatEffectorActionMode,
{
    Mode::FormatEffectorActionMode
}

/// Format Effector Transfer Mode `FETM`.
pub fn FETM() -> (r: Mode)
    ensures
        r == Mode::FormatEffectorTransferMode,
{
    Mode::FormatEffectorTransferMode
}

/// Multiple Area Transfer Mode `MATM`.
pub fn MATM() -> (r: Mode)
    ensures
        r == Mode::MultipleAreaTransferMode,
{
    Mode::MultipleAreaTransferMode
}

/// Transfer Termination Mode `TTM`.
pub fn TTM() -> (r: Mode)
    ensures
        r == Mode::TransferTerminationMode,
{
    Mode::TransferTerminationMode
}

/// Selected Area Transfer Mode `SATM`.
pub fn SATM() -> (r: Mode)
    ensures
        r == Mode::SelectedAreaTransferMode,
{
    Mode::SelectedAreaTransferMode
}

/// Tabulation Stop Mode `TSM`.
pub fn TSM() -> (r: Mode)
    ensures
        r == Mode::TabulationStopMode,
{
    Mode::TabulationStopMode
}

/// Graphic Rendition Combination Mode `GRCM`.
pub fn GRCM() -> (r: Mode)
    ensures
        r == Mode::GraphicRenditionCombinationMode,
{
    Mode::GraphicRenditionCombinationMode
}

/// Zero Default Mode `ZDM`.
pub fn ZDM() -> (r: Mode)
    ensures
        r == Mode::ZeroDefaultMode,
{
    Mode::ZeroDefaultMode
}

} // verus!
