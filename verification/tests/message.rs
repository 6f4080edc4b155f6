use webview2_client::message::{
    decode_command, parse_command, parse_token_list, CharClass, Command, MessageError,
};

fn token_list_by_std(message: &str) -> Command {
    let parts: Vec<&str> = message.split(", ").map(|s| s.trim()).collect();
    if parts.first() == Some(&"close") {
        Command::Close
    } else {
        Command::Ignore
    }
}

fn quoted_by_std(message: &str) -> Command {
    match message.trim_matches('"') {
        "close" => Command::Close,
        "toggle_fullscreen" => Command::ToggleFullscreen,
        _ => Command::Ignore,
    }
}

#[test]
fn bare_words_are_understood() {
    assert_eq!(parse_command("close"), Command::Close);
    assert_eq!(parse_command("toggle_fullscreen"), Command::ToggleFullscreen);
}

#[test]
fn quotes_around_the_word_are_taken_off() {
    assert_eq!(parse_command("\"close\""), Command::Close);
    assert_eq!(parse_command("\"\"close\"\"\""), Command::Close);
    assert_eq!(parse_command("\"close"), Command::Close);
    assert_eq!(parse_command("close\""), Command::Close);
    assert_eq!(parse_command("\"toggle_fullscreen\""), Command::ToggleFullscreen);
}

#[test]
fn quotes_inside_the_word_stay() {
    assert_eq!(parse_command("clo\"se"), Command::Ignore);
    assert_eq!(parse_command("\"clo\"se\""), Command::Ignore);
}

#[test]
fn only_the_double_quote_is_a_quote() {
    assert_eq!(parse_command("'close'"), Command::Ignore);
    assert_eq!(parse_command("`close`"), Command::Ignore);
    assert_eq!(parse_command("\u{201C}close\u{201D}"), Command::Ignore);
}

#[test]
fn matching_is_exact_and_regards_case() {
    for message in ["Close", "CLOSE", "cLose", "close ", " close", "\" close\"", "closee", "clos", "close\n", "Toggle_Fullscreen", "toggle-fullscreen", "toggle_fullscreen!", "togglefullscreen"] {
        assert_eq!(parse_command(message), Command::Ignore, "{:?}", message);
    }
}

#[test]
fn empty_and_all_quote_messages_are_ignored() {
    assert_eq!(parse_command(""), Command::Ignore);
    assert_eq!(parse_command("\""), Command::Ignore);
    assert_eq!(parse_command("\"\"\"\""), Command::Ignore);
}

#[test]
fn token_list_is_not_understood_by_the_exact_reading() {
    assert_eq!(parse_command("close, 1"), Command::Ignore);
}

#[test]
fn exact_reading_agrees_with_std_trimming() {
    let samples = [
        "", "\"", "\"\"", "close", "\"close\"", "\"\"close", "close\"\"", "\"clo\"se\"", "x\"close\"",
        "toggle_fullscreen", "\"toggle_fullscreen\"", "\"toggle_fullscreen", "\" \"", "\"\u{1F600}\"",
    ];
    for sample in samples {
        assert_eq!(parse_command(sample), quoted_by_std(sample), "{:?}", sample);
    }
}

#[test]
fn first_token_close_is_understood() {
    assert_eq!(parse_token_list("close"), Command::Close);
    assert_eq!(parse_token_list("close, 1, 2"), Command::Close);
    assert_eq!(parse_token_list("close, "), Command::Close);
}

#[test]
fn whitespace_around_the_first_token_is_taken_off() {
    assert_eq!(parse_token_list("  close  "), Command::Close);
    assert_eq!(parse_token_list("\tclose\r\n, rest"), Command::Close);
    assert_eq!(parse_token_list("\u{A0}close\u{3000}"), Command::Close);
    assert_eq!(parse_token_list("close , x"), Command::Close);
}

#[test]
fn close_in_a_later_token_is_ignored() {
    assert_eq!(parse_token_list("open, close"), Command::Ignore);
    assert_eq!(parse_token_list(", close"), Command::Ignore);
}

#[test]
fn comma_without_a_space_does_not_separate() {
    assert_eq!(parse_token_list("close,1"), Command::Ignore);
    assert_eq!(parse_token_list("close,"), Command::Ignore);
    assert_eq!(parse_token_list("close ,1"), Command::Ignore);
}

#[test]
fn token_list_reading_keeps_quotes() {
    assert_eq!(parse_token_list("\"close\""), Command::Ignore);
}

#[test]
fn token_list_reading_never_toggles() {
    assert_eq!(parse_token_list("toggle_fullscreen"), Command::Ignore);
    assert_eq!(parse_token_list("toggle_fullscreen, 1"), Command::Ignore);
}

#[test]
fn token_list_reading_agrees_with_std() {
    let samples = [
        "", " ", ",", ", ", "close", "close, ", "close,", " close , ", "\nclose\n, \nclose", "clos, e",
        "close\u{2003}, x", "\u{200B}close", "close\u{200B}", "c lose", ", , close", "close,  x", ",close",
        "\u{1680}close\u{2028}\u{2029}\u{202F}\u{205F}", "\u{85}close", "\u{1F}close", "close\u{180E}",
    ];
    for sample in samples {
        assert_eq!(parse_token_list(sample), token_list_by_std(sample), "{:?}", sample);
    }
}

#[test]
fn whitespace_class_agrees_with_std_on_every_character() {
    for code in 0u32..=0x10FFFF {
        if let Some(c) = char::from_u32(code) {
            assert_eq!(CharClass::Whitespace.has(c), c.is_whitespace(), "U+{:04X}", code);
        }
    }
}

#[test]
fn quote_class_holds_the_double_quote_only() {
    let mut members = Vec::new();
    for code in 0u32..=0x10FFFF {
        if let Some(c) = char::from_u32(code) {
            if CharClass::Quote.has(c) {
                members.push(c);
            }
        }
    }
    assert_eq!(members, vec!['"']);
}

fn units(text: &str) -> Vec<u16> {
    text.encode_utf16().collect()
}

#[test]
fn utf16_messages_are_read_like_text() {
    assert_eq!(decode_command(&units("close")), Ok(Command::Close));
    assert_eq!(decode_command(&units("\"close\"")), Ok(Command::Close));
    assert_eq!(decode_command(&units("toggle_fullscreen")), Ok(Command::ToggleFullscreen));
    assert_eq!(decode_command(&units("\u{1F600}")), Ok(Command::Ignore));
    assert_eq!(decode_command(&units("")), Ok(Command::Ignore));
}

#[test]
fn terminator_is_not_part_of_the_message() {
    assert_eq!(decode_command(&[0x63, 0x6C, 0x6F, 0x73, 0x65, 0]), Ok(Command::Ignore));
}

#[test]
fn malformed_utf16_message_is_an_error() {
    assert_eq!(decode_command(&[0xD800]), Err(MessageError::NotUtf16));
    let mut broken = units("close");
    broken.push(0xDC00);
    assert_eq!(decode_command(&broken), Err(MessageError::NotUtf16));
    let mut broken = vec![0xDBFFu16];
    broken.extend(units("close"));
    assert_eq!(decode_command(&broken), Err(MessageError::NotUtf16));
}
