use ansi_control_codes::c0;
use ansi_control_codes::c1;
use ansi_control_codes::c1::NEL;
use ansi_control_codes::control_sequences::{GraphicRendition, CUP, SGR};
use ansi_control_codes::control_strings::{
    application_program_command, control_string, device_control_string, operating_system_command,
    privacy_message,
};
use ansi_control_codes::independent_control_functions::RIS;
use ansi_control_codes::parser::{Token, TokenStream};
use ansi_control_codes::ControlFunction;

/// Drives a token stream to its end and collects every token.
fn collect_tokens(input: &str) -> Vec<Token> {
    let mut stream = TokenStream::from(input);
    let mut tokens = Vec::new();
    while let Some(token) = stream.next() {
        tokens.push(token);
    }
    tokens
}

#[test]
fn round_trip_each_kind() {
    let values = vec![
        c0::BEL(),
        c0::ESC(),
        c1::NEL(),
        RIS(),
        CUP(Some(7), Some(80)),
        ControlFunction::private_use("p", vec![String::from("5"), String::new()]).unwrap(),
    ];
    for value in values {
        let encoded = value.render();
        let tokens = collect_tokens(&encoded);
        assert_eq!(tokens, vec![Token::ControlFunction(value)]);
    }
}

#[test]
fn text_passthrough() {
    let input = "0123456789 !#$%&'()*+,-./=?@A";
    let tokens = collect_tokens(input);
    assert_eq!(tokens, vec![Token::String(String::from(input))]);
}

#[test]
fn interleaving() {
    let input = format!("A{}B", NEL().render());
    let tokens = collect_tokens(&input);
    assert_eq!(
        tokens,
        vec![
            Token::String(String::from("A")),
            Token::ControlFunction(NEL()),
            Token::String(String::from("B")),
        ]
    );
}

#[test]
fn standalone_terminal_escape() {
    let input = "no escape until here\u{001B}";
    let tokens = collect_tokens(input);
    assert_eq!(tokens.last(), Some(&Token::ControlFunction(c0::ESC())));
}

#[test]
fn malformed_control_sequence_fallback() {
    let tokens = collect_tokens("\u{001B}[ä");
    assert_eq!(
        tokens,
        vec![
            Token::ControlFunction(c0::ESC()),
            Token::String(String::from("[ä")),
        ]
    );
}

#[test]
fn parameter_round_trip() {
    let value =
        ControlFunction::private_use("p", vec![String::from("5"), String::new()]).unwrap();
    assert_eq!(value.render(), "\u{001B}[5;p");

    let tokens = collect_tokens("\u{001B}[5;p");
    assert_eq!(tokens, vec![Token::ControlFunction(value)]);
}

#[test]
fn concrete_cursor_position_example() {
    let value = CUP(Some(5), Some(13));
    assert_eq!(value.render(), "\u{001B}[5;13H");

    let tokens = collect_tokens("\u{001B}[5;13H");
    assert_eq!(tokens.len(), 1);
    assert_eq!(tokens[0], Token::ControlFunction(value));
}

#[test]
fn tokens_reconstruct_input() {
    let messy = "plain\u{0007}text\u{001B}[5;13H老虎\u{001B}[ä\u{001B}E tail\u{001B}";
    let mut reconstructed = String::new();
    for token in collect_tokens(messy) {
        match token {
            Token::String(text) => reconstructed.push_str(&text),
            Token::ControlFunction(cf) => reconstructed.push_str(&cf.render()),
        }
    }
    assert_eq!(reconstructed, messy);
}

#[test]
fn decode_empty_input() {
    assert_eq!(collect_tokens(""), Vec::<Token>::new());
}

#[test]
fn graphic_rendition_parameter_list() {
    let value = SGR(Some(vec![
        GraphicRendition::HighIntensity,
        GraphicRendition::RedForeground,
    ]));
    assert_eq!(value.render(), "\u{001B}[1;31m");
    assert_eq!(SGR(None).render(), "\u{001B}[0m");
}

#[test]
fn control_string_delimiters() {
    assert_eq!(
        application_program_command("run"),
        "\u{001B}_run\u{001B}\\"
    );
    assert_eq!(device_control_string("dev"), "\u{001B}Pdev\u{001B}\\");
    assert_eq!(operating_system_command("HALT"), "\u{001B}]HALT\u{001B}\\");
    assert_eq!(privacy_message("secret"), "\u{001B}^secret\u{001B}\\");
    assert_eq!(control_string("raw"), "\u{001B}Xraw\u{001B}\\");
}

#[test]
fn announcer_sequences() {
    assert_eq!(c0::ANNOUNCER_SEQUENCE(), "\u{001B}!@");
    assert_eq!(c1::ANNOUNCER_SEQUENCE(), "\u{001B}&@");
    assert_eq!(c1::ALTERNATIVE_ANNOUNCER_SEQUENCE(), "\u{001B}\"F");
}
