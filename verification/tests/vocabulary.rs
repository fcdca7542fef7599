//! The command vocabulary: name parsing, numeral parsing, and the error
//! messages the builtins report.

use lua_runner::model::{
    parse_button_send, parse_coordinate, parse_key_send, parse_query_key, ButtonSend, Coordinate,
    KeySend, QueryKey,
};
use lua_runner::text::{
    invalid_button_index_message, invalid_button_message, invalid_char_message,
    invalid_coordinate_message, invalid_key_message, join_failed_message, parse_u32,
    reply_lost_message, send_failed_message,
};
use lua_runner::instance::package_path_chunk;

#[test]
fn key_names_parse_to_their_variants() {
    assert_eq!(parse_key_send("F1"), Some(KeySend::F1));
    assert_eq!(parse_key_send("F20"), Some(KeySend::F20));
    assert_eq!(parse_key_send("LShift"), Some(KeySend::LShift));
    assert_eq!(parse_key_send("RCtrl"), Some(KeySend::RCtrl));
    assert_eq!(parse_key_send("Space"), Some(KeySend::Space));
    assert_eq!(parse_key_send("Option"), Some(KeySend::OptionKey));
    assert_eq!(parse_key_send("Enter"), Some(KeySend::Enter));
    assert_eq!(parse_key_send("NumpadDecimal"), Some(KeySend::NumpadDecimal));
    assert_eq!(parse_key_send("PageDown"), Some(KeySend::PageDown));
}

#[test]
fn unknown_key_names_are_rejected() {
    assert_eq!(parse_key_send(""), None);
    assert_eq!(parse_key_send("f1"), None);
    assert_eq!(parse_key_send("Banana"), None);
    assert_eq!(parse_key_send("F21"), None);
    assert_eq!(parse_key_send("A"), None);
}

#[test]
fn query_key_names_parse_to_their_variants() {
    assert_eq!(parse_query_key("A"), Some(QueryKey::A));
    assert_eq!(parse_query_key("Z"), Some(QueryKey::Z));
    assert_eq!(parse_query_key("Key0"), Some(QueryKey::Key0));
    assert_eq!(parse_query_key("Key9"), Some(QueryKey::Key9));
    assert_eq!(parse_query_key("F12"), Some(QueryKey::F12));
    assert_eq!(parse_query_key("LControl"), Some(QueryKey::LControl));
    assert_eq!(parse_query_key("Command"), Some(QueryKey::Command));
    assert_eq!(parse_query_key("Comma"), Some(QueryKey::Comma));
    assert_eq!(parse_query_key("Slash"), Some(QueryKey::Slash));
    assert_eq!(parse_query_key("NumpadEquals"), Some(QueryKey::NumpadEquals));
    assert_eq!(parse_query_key("Insert"), Some(QueryKey::Insert));
}

#[test]
fn unknown_query_key_names_are_rejected() {
    assert_eq!(parse_query_key(""), None);
    assert_eq!(parse_query_key("a"), None);
    assert_eq!(parse_query_key("0"), None);
    assert_eq!(parse_query_key("Ctrl"), None);
}

#[test]
fn button_names_parse_to_their_variants() {
    assert_eq!(parse_button_send("Left"), Some(ButtonSend::Left));
    assert_eq!(parse_button_send("Right"), Some(ButtonSend::Right));
    assert_eq!(parse_button_send("Middle"), Some(ButtonSend::Middle));
    assert_eq!(parse_button_send("ScrollUp"), Some(ButtonSend::ScrollUp));
    assert_eq!(parse_button_send("ScrollDown"), Some(ButtonSend::ScrollDown));
    assert_eq!(parse_button_send("ScrollLeft"), Some(ButtonSend::ScrollLeft));
    assert_eq!(parse_button_send("ScrollRight"), Some(ButtonSend::ScrollRight));
    assert_eq!(parse_button_send("left"), None);
    assert_eq!(parse_button_send("Wheel"), None);
}

#[test]
fn coordinate_modes_parse_to_their_variants() {
    assert_eq!(parse_coordinate("Abs"), Some(Coordinate::Abs));
    assert_eq!(parse_coordinate("Rel"), Some(Coordinate::Rel));
    assert_eq!(parse_coordinate("abs"), None);
    assert_eq!(parse_coordinate("Absolute"), None);
}

#[test]
fn numerals_parse_like_unsigned_decimals() {
    assert_eq!(parse_u32("0"), Some(0));
    assert_eq!(parse_u32("42"), Some(42));
    assert_eq!(parse_u32("+7"), Some(7));
    assert_eq!(parse_u32("007"), Some(7));
    assert_eq!(parse_u32("4294967295"), Some(u32::MAX));
    assert_eq!(parse_u32("4294967296"), None);
    assert_eq!(parse_u32("99999999999999999999"), None);
    assert_eq!(parse_u32(""), None);
    assert_eq!(parse_u32("+"), None);
    assert_eq!(parse_u32("-1"), None);
    assert_eq!(parse_u32("12a"), None);
    assert_eq!(parse_u32(" 3"), None);
}

#[test]
fn decimal_formatting_matches() {
    assert_eq!(invalid_button_index_message(0), "Invalid button index: 0");
    assert_eq!(invalid_button_index_message(7), "Invalid button index: 7");
    assert_eq!(
        invalid_button_index_message(1234567890),
        "Invalid button index: 1234567890"
    );
    assert_eq!(
        invalid_button_index_message(u32::MAX),
        "Invalid button index: 4294967295"
    );
}

#[test]
fn error_messages_name_the_input() {
    assert_eq!(invalid_key_message("Banana"), "Invalid key: Banana");
    assert_eq!(invalid_button_message("Wheel"), "Invalid button: Wheel");
    assert_eq!(invalid_coordinate_message("Diag"), "Invalid coordinate: Diag");
    assert_eq!(invalid_char_message(), "Invalid character");
    assert_eq!(invalid_button_index_message(9), "Invalid button index: 9");
    assert_eq!(send_failed_message("gone"), "Failed to send event: gone");
    assert_eq!(reply_lost_message(), "Failed to receive reply: worker is gone");
    assert_eq!(join_failed_message(), "Failed to join Lua thread");
}

#[test]
fn package_path_chunk_roots_the_search_path() {
    assert_eq!(
        package_path_chunk("/base/dir"),
        "package = package or { path = \"\" }\npackage.path = package.path .. \";/base/dir/?.lua\""
    );
}
