use ansi_control_codes::c0::{BEL, ESC};
use ansi_control_codes::c1::{CSI, NEL};
use ansi_control_codes::control_sequences::CNL;
use ansi_control_codes::control_sequences::CUP;
use ansi_control_codes::independent_control_functions::{INT, RIS};
use ansi_control_codes::modes::DCSM;
use ansi_control_codes::ControlFunction;
use ansi_control_codes::ControlFunctionType;
use ansi_control_codes::InvalidControlFunction;

#[test]
fn debug_control_function_type() {
    assert_eq!(ControlFunctionType::C0.name(), "C0");
    assert_eq!(ControlFunctionType::C1.name(), "C1");
    assert_eq!(ControlFunctionType::ControlSequence.name(), "Control Sequence");
    assert_eq!(
        ControlFunctionType::IndependentControlFunction.name(),
        "Independent Control Function"
    );
}

#[test]
fn debug_control_function() {
    assert_eq!(
        BEL().debug_str(),
        "ControlFunction { function_type: C0, function: \"00/07\", parameters: [] }"
    );

    assert_eq!(
        CUP(None, Some(10)).debug_str(),
        "ControlFunction { function_type: Control Sequence, function: \"04/08\", parameters: [\"1\", \"10\"] }"
    );
}

#[test]
fn string_equality_c0() {
    let esc_control = ESC();
    let esc_str = "\u{001B}";
    let esc_string = String::from(esc_str);

    assert_eq!(
        esc_control, esc_control,
        "Asserting equality between same control codes failed"
    );
    assert!(
        esc_control.eq_str(esc_str),
        "Asserting equality between control code and string slice failed"
    );
    assert!(
        esc_control.eq_str(&esc_string),
        "Asserting equality between control code and string failed"
    );

    assert!(
        esc_control.eq_str(esc_str),
        "Failed to compare control code and string slice"
    );
    assert!(
        esc_control.eq_str(&esc_string),
        "Failed to compare control code and string"
    );

    // this should fail, as ESC and BEL are not equal
    assert!(
        !esc_control.eq_str("\u{0007}"),
        "Different control codes should not be equal"
    );
}

#[test]
fn string_equality_c1() {
    let csi_control = CSI();
    let csi_str = "\u{001B}[";
    let csi_string = String::from(csi_str);

    assert_eq!(
        csi_control, csi_control,
        "Asserting equality between same control codes failed"
    );
    assert!(
        csi_control.eq_str(csi_str),
        "Asserting equality between control code and string slice failed"
    );
    assert!(
        csi_control.eq_str(&csi_string),
        "Asserting equality between control code and string failed"
    );

    assert!(
        csi_control.eq_str(csi_str),
        "Failed to compare control code and string slice"
    );
    assert!(
        csi_control.eq_str(&csi_string),
        "Failed to compare control code and string"
    );

    // this should fail, as CSI and OSC are not equal
    assert!(
        !csi_control.eq_str("\u{001B}]"),
        "Different control codes should not be equal"
    );
}

#[test]
fn string_equality_control_sequence() {
    let cnl_control = CNL(4.into());
    let cnl_str = "\u{001B}[4E";
    let cnl_string = String::from(cnl_str);

    assert_eq!(
        cnl_control, cnl_control,
        "Asserting equality between same control codes failed"
    );
    assert!(
        cnl_control.eq_str(cnl_str),
        "Asserting equality between control code and string slice failed"
    );
    assert!(
        cnl_control.eq_str(&cnl_string),
        "Asserting equality between control code and string failed"
    );

    assert!(
        cnl_control.eq_str(cnl_str),
        "Failed to compare control code and string slice"
    );
    assert!(
        cnl_control.eq_str(&cnl_string),
        "Failed to compare control code and string"
    );

    // this should fail, as CNL for 4 lines and CNL for 3 lines should differ
    assert!(
        !cnl_control.eq_str("\u{001B}[3E"),
        "Different control codes should not be equal"
    );
}

#[test]
fn string_equality_independent_control_functions() {
    let icf_control = INT();
    let icf_str = "\u{001B}a";
    let icf_string = String::from(icf_str);

    assert_eq!(
        icf_control, icf_control,
        "Asserting equality between same control codes failed"
    );
    assert!(
        icf_control.eq_str(icf_str),
        "Asserting equality between control code and string slice failed"
    );
    assert!(
        icf_control.eq_str(&icf_string),
        "Asserting equality between control code and string failed"
    );

    assert!(
        icf_control.eq_str(icf_str),
        "Failed to compare control code and string slice"
    );
    assert!(
        icf_control.eq_str(&icf_string),
        "Failed to compare control code and string"
    );

    // this should fail, as Interrupt and Enable Manual Input are different
    assert!(
        !icf_control.eq_str("\u{001B}b"),
        "Different control codes should not be equal"
    );
}

#[test]
fn render_each_kind() {
    assert_eq!(BEL().render(), "\u{0007}");
    assert_eq!(NEL().render(), "\u{001B}E");
    assert_eq!(RIS().render(), "\u{001B}c");
    assert_eq!(CUP(Some(5), Some(13)), CUP(5.into(), 13.into()));
    assert_eq!(CUP(Some(5), Some(13)).render(), "\u{001B}[5;13H");
}

#[test]
fn render_large_parameter() {
    assert_eq!(CNL(Some(4294967295)).render(), "\u{001B}[4294967295E");
    assert_eq!(CNL(Some(0)).render(), "\u{001B}[0E");
    assert_eq!(CNL(Some(100)).render(), "\u{001B}[100E");
}

#[test]
fn mode_set_and_reset() {
    assert_eq!(DCSM().set().render(), "\u{001B}[9h");
    assert_eq!(DCSM().reset().render(), "\u{001B}[9l");
}

#[test]
fn private_use_accepts_private_range() {
    let custom = ControlFunction::private_use("\u{0070}", vec![]).unwrap();
    assert_eq!(custom.render(), "\u{001B}[p");

    let with_intermediate =
        ControlFunction::private_use("\u{0020}\u{0070}", vec![String::from("7")]).unwrap();
    assert_eq!(with_intermediate.render(), "\u{001B}[7 p");
}

#[test]
fn private_use_rejects_standardized_range() {
    let result = ControlFunction::private_use("\u{0040}", vec![]);
    assert!(matches!(
        result,
        Err(InvalidControlFunction::InvalidPrivateUseError)
    ));
}

#[test]
fn private_use_rejects_long_identifier() {
    let result = ControlFunction::private_use("abc", vec![]);
    assert!(matches!(
        result,
        Err(InvalidControlFunction::InvalidFunctionValueError)
    ));

    let empty = ControlFunction::private_use("", vec![]);
    assert!(matches!(
        empty,
        Err(InvalidControlFunction::InvalidFunctionValueError)
    ));
}

#[test]
fn private_use_rejects_wrong_intermediate() {
    let result = ControlFunction::private_use("xp", vec![]);
    assert!(matches!(
        result,
        Err(InvalidControlFunction::InvalidIntermediateByteError)
    ));
}

#[test]
fn private_use_rejects_non_ascii() {
    let result = ControlFunction::private_use("ä", vec![]);
    assert!(matches!(
        result,
        Err(InvalidControlFunction::InvalidAsciiError)
    ));
}
