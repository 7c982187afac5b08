use ansi_control_codes::c0::{BEL, CR, ESC, LF};
use ansi_control_codes::c1::{BPH, CSI, NBH, SOS};
use ansi_control_codes::control_sequences::{
    DeviceAttributes, PrintQuality, ReversedString, TabulationControl, CHA, CHT, CTC, CUP, DA,
    SPQR, SRS, SSW, SU, TCC,
};
use ansi_control_codes::independent_control_functions::{DMI, EMI, RIS};
use ansi_control_codes::parser::{Token, TokenStream};
use ansi_control_codes::ControlFunction;

/// Drives a token stream to its end and collects every token.
fn collect_tokens(input: &str) -> Vec<Token> {
    let mut stream = TokenStream::from(input);
    let mut tokens = Vec::new();
    while let Some(token) = stream.next() {
        tokens.push(token);
    }
    tokens
}

/// A plain-text token.
fn text(content: &str) -> Token {
    Token::String(String::from(content))
}

#[test]
fn test_simple_ascii_string() {
    let simple_ascii_input = "Hello World";
    let mut token_stream = TokenStream::from(simple_ascii_input);

    let first_element = token_stream.next();
    let second_element = token_stream.next();

    assert!(first_element.is_some_and(|value| value == text(simple_ascii_input)));
    assert!(second_element.is_none());
}

#[test]
fn test_simple_non_ascii_string() {
    let simple_non_ascii_input = "Löwe 老虎 Léopard";
    let mut token_stream = TokenStream::from(simple_non_ascii_input);

    let first_element = token_stream.next();
    let second_element = token_stream.next();

    assert!(first_element.is_some_and(|value| value == text(simple_non_ascii_input)));
    assert!(second_element.is_none());
}

#[test]
fn test_simple_ascii_string_with_c0() {
    let simple_ascii_input = "Ring the bell";
    let input = format!("{}{}", simple_ascii_input, BEL().render());

    let mut token_stream = TokenStream::from(&input);

    let first_element = token_stream.next();
    let second_element = token_stream.next();
    let third_element = token_stream.next();

    assert!(first_element.is_some_and(|value| value == text(simple_ascii_input)));
    assert!(second_element.is_some_and(|value| value == Token::ControlFunction(BEL())));
    assert!(third_element.is_none());
}

#[test]
fn test_simple_non_ascii_string_with_c0() {
    let simple_non_ascii_input = "Löwe 老虎 Léopard";
    let input = format!("{}{}{}", simple_non_ascii_input, CR().render(), LF().render());

    let mut token_stream = TokenStream::from(&input);

    let first_element = token_stream.next();
    let second_element = token_stream.next();
    let third_element = token_stream.next();
    let forth_element = token_stream.next();

    assert!(first_element.is_some_and(|value| value == text(simple_non_ascii_input)));
    assert!(second_element.is_some_and(|value| value == Token::ControlFunction(CR())));
    assert!(third_element.is_some_and(|value| value == Token::ControlFunction(LF())));
    assert!(forth_element.is_none());
}

#[test]
fn test_simple_ascii_string_with_interleaved_c0() {
    let line1 = "Line1";
    let line2 = "Line2";
    let input = format!("{}{}{}", line1, LF().render(), line2);

    let mut token_stream = TokenStream::from(&input);

    let first_element = token_stream.next();
    let second_element = token_stream.next();
    let third_element = token_stream.next();
    let forth_element = token_stream.next();

    assert!(first_element.is_some_and(|value| value == text(line1)));
    assert!(second_element.is_some_and(|value| value == Token::ControlFunction(LF())));
    assert!(third_element.is_some_and(|value| value == text(line2)));
    assert!(forth_element.is_none());
}

#[test]
fn test_simple_non_ascii_string_with_interleaved_c0() {
    let line1 = "Löwe";
    let line2 = "老虎";
    let input = format!("{}{}{}", line1, LF().render(), line2);

    let mut token_stream = TokenStream::from(&input);

    let first_element = token_stream.next();
    let second_element = token_stream.next();
    let third_element = token_stream.next();
    let forth_element = token_stream.next();

    assert!(first_element.is_some_and(|value| value == text(line1)));
    assert!(second_element.is_some_and(|value| value == Token::ControlFunction(LF())));
    assert!(third_element.is_some_and(|value| value == text(line2)));
    assert!(forth_element.is_none());
}

#[test]
fn test_single_esc() {
    let esc = ESC().render();
    let mut token_stream = TokenStream::from(&esc);

    let first_element = token_stream.next();
    let second_element = token_stream.next();

    assert!(first_element.is_some_and(|value| value == Token::ControlFunction(ESC())));
    assert!(second_element.is_none());
}

#[test]
fn test_esc_at_end_of_string() {
    let text_part = "I have to escape";
    let escape = format!("{}{}", text_part, ESC().render());
    let mut token_stream = TokenStream::from(&escape);

    let first_element = token_stream.next();
    let second_element = token_stream.next();
    let third_element = token_stream.next();

    assert!(first_element.is_some_and(|value| value == text(text_part)));
    assert!(second_element.is_some_and(|value| value == Token::ControlFunction(ESC())));
    assert!(third_element.is_none());
}

#[test]
fn test_esc_at_start_of_non_ascii_string() {
    let text_part = "í have to escape";
    let escape = format!("{}{}", ESC().render(), text_part);
    let mut token_stream = TokenStream::from(&escape);

    let first_element = token_stream.next();
    let second_element = token_stream.next();
    let third_element = token_stream.next();

    assert!(first_element.is_some_and(|value| value == Token::ControlFunction(ESC())));
    assert!(second_element.is_some_and(|value| value == text(text_part)));
    assert!(third_element.is_none());
}

#[test]
fn test_esc_at_start_of_ascii_string() {
    let text_part = "i have to escape";
    let escape = format!("{}{}", ESC().render(), text_part);
    let mut token_stream = TokenStream::from(&escape);

    let first_element = token_stream.next();
    let second_element = token_stream.next();
    let third_element = token_stream.next();

    println!("{:?}", first_element);
    println!("{:?}", second_element);
    println!("{:?}", third_element);

    assert!(first_element.is_some_and(|value| value == Token::ControlFunction(ESC())));
    assert!(second_element.is_some_and(|value| value == text(text_part)));
    assert!(third_element.is_none());
}

#[test]
fn test_c1_at_start_of_string() {
    let input = format!("{}This might be in the next line", BPH().render());
    let result = collect_tokens(&input);

    assert_eq!(
        result,
        vec![
            Token::ControlFunction(BPH()),
            text("This might be in the next line")
        ]
    )
}

#[test]
fn test_c1_at_end_of_string() {
    let input = format!(
        "No break is permitted at the end of this string{}",
        NBH().render()
    );
    let result = collect_tokens(&input);

    assert_eq!(
        result,
        vec![
            text("No break is permitted at the end of this string"),
            Token::ControlFunction(NBH())
        ]
    )
}

#[test]
fn test_c1_in_between_ascii_strings() {
    let input = format!("Line1{}Maybe Line2", BPH().render());
    let result = collect_tokens(&input);

    assert_eq!(
        result,
        vec![
            text("Line1"),
            Token::ControlFunction(BPH()),
            text("Maybe Line2")
        ]
    )
}

#[test]
fn test_c1_in_between_non_ascii_strings() {
    let input = format!("老{}虎", SOS().render());
    let result = collect_tokens(&input);

    assert_eq!(
        result,
        vec![text("老"), Token::ControlFunction(SOS()), text("虎")]
    )
}

#[test]
fn test_independent_code_at_start_of_string() {
    let input = format!("{}Back to normal", RIS().render());
    let result = collect_tokens(&input);

    assert_eq!(
        result,
        vec![Token::ControlFunction(RIS()), text("Back to normal")]
    )
}

#[test]
fn test_independent_code_at_end_of_string() {
    let input = format!("Now enabling manual input{}", EMI().render());
    let result = collect_tokens(&input);

    assert_eq!(
        result,
        vec![
            text("Now enabling manual input"),
            Token::ControlFunction(EMI())
        ]
    )
}

#[test]
fn test_independent_code_in_between_of_ascii_strings() {
    let input = format!(
        "Now enabling manual input{} And now {}disabling it again",
        EMI().render(),
        DMI().render()
    );
    let result = collect_tokens(&input);

    assert_eq!(
        result,
        vec![
            text("Now enabling manual input"),
            Token::ControlFunction(EMI()),
            text(" And now "),
            Token::ControlFunction(DMI()),
            text("disabling it again"),
        ]
    )
}

#[test]
fn test_independent_code_in_between_of_non_ascii_strings() {
    let input = format!(
        "Now enabling manual input{} And now 老{}老disabling it again",
        EMI().render(),
        DMI().render()
    );
    let result = collect_tokens(&input);

    assert_eq!(
        result,
        vec![
            text("Now enabling manual input"),
            Token::ControlFunction(EMI()),
            text(" And now 老"),
            Token::ControlFunction(DMI()),
            text("老disabling it again"),
        ]
    )
}

#[test]
fn test_invalid_control_sequence() {
    let invalid_sequence = format!("{}{}{}", ESC().render(), CSI().render(), "ä");
    let result = collect_tokens(&invalid_sequence);

    assert_eq!(
        result,
        vec![
            Token::ControlFunction(ESC()),
            Token::ControlFunction(ESC()),
            text(&format!("{}{}", "[", "ä")),
        ]
    )
}

#[test]
fn test_invalid_control_sequence_with_lookalike_arguments() {
    let invalid_sequence = format!("{}{}{}{}", ESC().render(), CSI().render(), "1;2", "ä");
    let result = collect_tokens(&invalid_sequence);

    assert_eq!(
        result,
        vec![
            Token::ControlFunction(ESC()),
            Token::ControlFunction(ESC()),
            text(&format!("{}{}{}", "[", "1;2", "ä")),
        ]
    )
}

#[test]
fn test_invalid_control_sequence_with_no_end() {
    let invalid_sequence = format!("{}{}", ESC().render(), CSI().render());
    let result = collect_tokens(&invalid_sequence);

    assert_eq!(
        result,
        vec![
            Token::ControlFunction(ESC()),
            Token::ControlFunction(ESC()),
            text("["),
        ]
    )
}

#[test]
fn test_invalid_control_sequence_with_intermediate() {
    let invalid_sequence = format!("{}{}{}{}", ESC().render(), CSI().render(), "\u{0020}", "ä");
    let result = collect_tokens(&invalid_sequence);

    assert_eq!(
        result,
        vec![
            Token::ControlFunction(ESC()),
            Token::ControlFunction(ESC()),
            text(&format!("{}{}{}", "[", "\u{0020}", "ä")),
        ]
    )
}

#[test]
fn test_invalid_control_sequence_with_intermediate_with_lookalike_arguments() {
    let invalid_sequence = format!(
        "{}{}{}{}{}",
        ESC().render(),
        CSI().render(),
        "\u{0020}",
        "1;2",
        "ä"
    );
    let result = collect_tokens(&invalid_sequence);

    assert_eq!(
        result,
        vec![
            Token::ControlFunction(ESC()),
            Token::ControlFunction(ESC()),
            text(&format!("{}{}{}{}", "[", "\u{0020}", "1;2", "ä")),
        ]
    )
}

#[test]
fn test_invalid_control_sequence_with_intermediate_with_no_end() {
    let invalid_sequence = format!("{}{}{}", ESC().render(), CSI().render(), "\u{0020}");
    let result = collect_tokens(&invalid_sequence);

    assert_eq!(
        result,
        vec![
            Token::ControlFunction(ESC()),
            Token::ControlFunction(ESC()),
            text(&format!("{}{}", "[", "\u{0020}")),
        ]
    )
}

#[test]
fn test_invalid_control_sequence_with_no_end_and_parameters() {
    let invalid_sequence = format!("{}{}{}", ESC().render(), CSI().render(), "1;2");
    let result = collect_tokens(&invalid_sequence);

    assert_eq!(
        result,
        vec![
            Token::ControlFunction(ESC()),
            Token::ControlFunction(ESC()),
            text(&format!("{}{}", "[", "1;2")),
        ]
    )
}

#[test]
fn test_valid_control_sequence_no_intermediate_standalone() {
    let valid_sequence = CHA(None).render();
    let result = collect_tokens(&valid_sequence);

    assert_eq!(result, vec![Token::ControlFunction(CHA(None))])
}

#[test]
fn test_valid_control_sequence_no_intermediate_beginning_of_string() {
    let valid_sequence = format!("{}Hello", CHA(None).render());
    let result = collect_tokens(&valid_sequence);

    assert_eq!(
        result,
        vec![Token::ControlFunction(CHA(None)), text("Hello")]
    )
}

#[test]
fn test_valid_control_sequence_no_intermediate_end_of_string() {
    let valid_sequence = format!("Hello{}", CHT(8.into()).render());
    let result = collect_tokens(&valid_sequence);

    assert_eq!(
        result,
        vec![text("Hello"), Token::ControlFunction(CHT(8.into()))]
    )
}

#[test]
fn test_valid_control_sequence_no_intermediate_middle_of_string() {
    let valid_sequence = format!(
        "Take control{} over tabulations",
        CTC(TabulationControl::ClearAllLineTabulationStops.into()).render()
    );
    let result = collect_tokens(&valid_sequence);

    assert_eq!(
        result,
        vec![
            text("Take control"),
            Token::ControlFunction(CTC(TabulationControl::ClearAllLineTabulationStops.into())),
            text(" over tabulations")
        ]
    )
}

#[test]
fn test_valid_control_sequence_with_intermediate_standalone() {
    let valid_sequence = SPQR(PrintQuality::HighQualityLowSpeed.into()).render();
    let result = collect_tokens(&valid_sequence);

    assert_eq!(result, vec![Token::ControlFunction(SPQR(None))])
}

#[test]
fn test_valid_control_sequence_with_intermediate_beginning_of_string() {
    let valid_sequence = format!(
        "{}desreveR{}",
        SRS(ReversedString::Start.into()).render(),
        SRS(ReversedString::End.into()).render()
    );
    let result = collect_tokens(&valid_sequence);

    assert_eq!(
        result,
        vec![
            Token::ControlFunction(SRS(ReversedString::Start.into())),
            text("desreveR"),
            Token::ControlFunction(SRS(ReversedString::End.into()))
        ]
    )
}

#[test]
fn test_valid_control_sequence_with_intermediate_end_of_string() {
    let valid_sequence = format!("No more spaces after me!{}", SSW(0).render());
    let result = collect_tokens(&valid_sequence);

    assert_eq!(
        result,
        vec![
            text("No more spaces after me!"),
            Token::ControlFunction(SSW(0))
        ]
    )
}

#[test]
fn test_valid_control_sequence_with_intermediate_middle_of_string() {
    let valid_sequence = format!("Hold tight!{}We are going up!", SU(50.into()).render());
    let result = collect_tokens(&valid_sequence);

    assert_eq!(
        result,
        vec![
            text("Hold tight!"),
            Token::ControlFunction(SU(50.into())),
            text("We are going up!")
        ]
    )
}

#[test]
fn test_valid_control_sequence_with_multiple_parameters() {
    let valid_sequence = format!("All or nothing@>Ä{}", TCC(6, 12.into()).render());
    let result = collect_tokens(&valid_sequence);

    assert_eq!(
        result,
        vec![
            text("All or nothing@>Ä"),
            Token::ControlFunction(TCC(6, 12.into())),
        ]
    )
}

#[test]
fn test_example_a() {
    let example = "\x1b[0u\x1b[62c\x1b[23;6H";
    let result = collect_tokens(example);

    assert_eq!(
        result,
        vec![
            Token::ControlFunction(
                ControlFunction::private_use("u", vec![String::from("0")]).unwrap()
            ),
            Token::ControlFunction(DA(DeviceAttributes::Identify(62).into())),
            Token::ControlFunction(CUP(23.into(), 6.into()))
        ]
    )
}
