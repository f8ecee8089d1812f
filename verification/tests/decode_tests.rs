use pxls::decode::{
    collect_user_update, decode_body, empty_as_none, false_or_string, parse_color_value, parse_stats_timestamp,
    read_zoned_time, split_stats_time, user_update_key, FlagOrText, UserUpdateEntry,
};
use pxls::{DecodeError, RequestError, StatsTimestamp, UserFaction, UserUpdate, UserUpdateKey};

#[test]
fn colors_in_style_sheet_form() {
    assert_eq!(parse_color_value("#ff0000"), Ok([255, 0, 0]));
    assert_eq!(parse_color_value("#00FF7f"), Ok([0, 255, 127]));
    assert_eq!(parse_color_value("123456"), Ok([0x12, 0x34, 0x56]));
    assert_eq!(parse_color_value("###abcdef"), Ok([0xab, 0xcd, 0xef]));
}

#[test]
fn short_colors_are_numbers() {
    assert_eq!(parse_color_value("#fff"), Ok([0, 0x0f, 0xff]));
    assert_eq!(parse_color_value("0"), Ok([0, 0, 0]));
    assert_eq!(parse_color_value("+ff"), Ok([0, 0, 255]));
    assert_eq!(parse_color_value("#0000000000ff"), Ok([0, 0, 255]));
}

#[test]
fn the_fourth_byte_of_a_color_is_dropped() {
    assert_eq!(parse_color_value("#ff000000"), Ok([0, 0, 0]));
    assert_eq!(parse_color_value("#12345678"), Ok([0x34, 0x56, 0x78]));
    assert_eq!(parse_color_value("ffffffff"), Ok([255, 255, 255]));
}

#[test]
fn colors_that_are_no_numbers() {
    assert_eq!(parse_color_value(""), Err(DecodeError::EmptyNumber));
    assert_eq!(parse_color_value("#"), Err(DecodeError::EmptyNumber));
    assert_eq!(parse_color_value("##"), Err(DecodeError::EmptyNumber));
    assert_eq!(parse_color_value("+"), Err(DecodeError::InvalidDigit));
    assert_eq!(parse_color_value("#+"), Err(DecodeError::InvalidDigit));
    assert_eq!(parse_color_value("-ff"), Err(DecodeError::InvalidDigit));
    assert_eq!(parse_color_value("++ff"), Err(DecodeError::InvalidDigit));
    assert_eq!(parse_color_value("#ff00gg"), Err(DecodeError::InvalidDigit));
    assert_eq!(parse_color_value("ff#00"), Err(DecodeError::InvalidDigit));
    assert_eq!(parse_color_value(" ff"), Err(DecodeError::InvalidDigit));
    assert_eq!(parse_color_value("0xff"), Err(DecodeError::InvalidDigit));
    assert_eq!(parse_color_value("#ff\u{e9}"), Err(DecodeError::InvalidDigit));
}

#[test]
fn colors_beyond_32_bits() {
    assert_eq!(parse_color_value("100000000"), Err(DecodeError::NumberTooLarge));
    assert_eq!(parse_color_value("#fffffffff"), Err(DecodeError::NumberTooLarge));
    // The fault that comes first, left to right, is reported.
    assert_eq!(parse_color_value("fffffffffz"), Err(DecodeError::NumberTooLarge));
    assert_eq!(parse_color_value("zfffffffff"), Err(DecodeError::InvalidDigit));
}

#[test]
fn false_stands_for_absent() {
    assert_eq!(false_or_string(FlagOrText::Flag(false)), Ok(None));
    assert_eq!(false_or_string(FlagOrText::Flag(true)), Err(DecodeError::ExpectedFalse));
    assert_eq!(
        false_or_string(FlagOrText::Text(String::from("someone"))),
        Ok(Some(String::from("someone")))
    );
    assert_eq!(false_or_string(FlagOrText::Text(String::new())), Ok(Some(String::new())));
}

#[test]
fn empty_text_stands_for_absent() {
    assert_eq!(empty_as_none(String::new()), None);
    assert_eq!(empty_as_none(String::from("x")), Some(String::from("x")));
    assert_eq!(empty_as_none(String::from(" ")), Some(String::from(" ")));
}

#[test]
fn keys_of_a_user_update() {
    assert_eq!(user_update_key("NameColor"), UserUpdateKey::NameColor);
    assert_eq!(user_update_key("DisplayedFaction"), UserUpdateKey::DisplayedFaction);
    assert_eq!(user_update_key("nameColor"), UserUpdateKey::Other);
    assert_eq!(user_update_key(""), UserUpdateKey::Other);
    assert_eq!(user_update_key("NameColor "), UserUpdateKey::Other);
}

#[test]
fn a_written_time_splits_at_the_bracket() {
    assert_eq!(
        split_stats_time("2022/01/02 - 03:04:05 (UTC)"),
        Ok((String::from("2022/01/02 - 03:04:05"), String::from("UTC")))
    );
    assert_eq!(
        split_stats_time("a (b (c)"),
        Ok((String::from("a"), String::from("b")))
    );
    assert_eq!(split_stats_time(" ()"), Ok((String::new(), String::new())));
    assert_eq!(split_stats_time("x (y"), Ok((String::from("x"), String::new())));
}

#[test]
fn a_written_time_without_a_zone() {
    assert_eq!(split_stats_time(""), Err(DecodeError::EmptyTimestamp));
    assert_eq!(split_stats_time("2022/01/02 - 03:04:05"), Err(DecodeError::MissingTimezone));
    assert_eq!(split_stats_time(")"), Err(DecodeError::MissingTimezone));
    // The last character is dropped before the search.
    assert_eq!(split_stats_time("x ("), Err(DecodeError::MissingTimezone));
}

#[test]
fn a_written_time_in_utc() {
    assert_eq!(
        parse_stats_timestamp("2022/01/02 - 03:04:05 (UTC)"),
        Ok(StatsTimestamp { seconds: 1_641_092_645, timezone: String::from("UTC") })
    );
    assert_eq!(
        parse_stats_timestamp("1970/01/01 - 00:00:00 (UTC)"),
        Ok(StatsTimestamp { seconds: 0, timezone: String::from("UTC") })
    );
}

#[test]
fn a_written_time_in_a_zone_with_an_offset() {
    assert_eq!(
        parse_stats_timestamp("2022/01/02 - 03:04:05 (Europe/Berlin)"),
        Ok(StatsTimestamp { seconds: 1_641_089_045, timezone: String::from("Europe/Berlin") })
    );
    assert_eq!(
        read_zoned_time("2022/07/02 - 03:04:05", String::from("America/New_York")),
        Ok(StatsTimestamp { seconds: 1_656_745_445, timezone: String::from("America/New_York") })
    );
}

#[test]
fn a_written_time_that_cannot_be_read() {
    assert_eq!(
        parse_stats_timestamp("2022/01/02 - 03:04:05 (Nowhere/Land)"),
        Err(DecodeError::InvalidDatetime)
    );
    assert_eq!(
        parse_stats_timestamp("2022/01/02 - 03:04:05 (utc)"),
        Err(DecodeError::InvalidDatetime)
    );
    assert_eq!(
        parse_stats_timestamp("2022-01-02 03:04:05 (UTC)"),
        Err(DecodeError::InvalidDatetime)
    );
    assert_eq!(
        parse_stats_timestamp("2022/13/02 - 03:04:05 (UTC)"),
        Err(DecodeError::InvalidDatetime)
    );
    assert_eq!(parse_stats_timestamp(""), Err(DecodeError::EmptyTimestamp));
    assert_eq!(parse_stats_timestamp("now"), Err(DecodeError::MissingTimezone));
    assert_eq!(parse_stats_timestamp("never (Nowhere)"), Err(DecodeError::InvalidDatetime));
}

#[test]
fn a_local_time_that_its_zone_skips() {
    // At 02:00 on 2022-03-27 the clocks in Berlin went to 03:00.
    assert_eq!(
        parse_stats_timestamp("2022/03/27 - 02:30:00 (Europe/Berlin)"),
        Err(DecodeError::InvalidDatetime)
    );
}

#[test]
fn a_body_in_utf8_is_text() {
    assert_eq!(decode_body(b"{\"width\": 10}"), Ok(String::from("{\"width\": 10}")));
    assert_eq!(decode_body("gr\u{fc}n".as_bytes()), Ok(String::from("gr\u{fc}n")));
    assert_eq!(decode_body(b""), Ok(String::new()));
}

#[test]
fn a_body_that_is_not_utf8() {
    assert_eq!(decode_body(&[b'a', b'b', 0xff, b'c']), Err(RequestError::ParseUTF8(2)));
    assert_eq!(decode_body(&[0xc3]), Err(RequestError::ParseUTF8(0)));
}

fn faction(id: usize) -> UserFaction {
    UserFaction {
        id,
        color: 0xff00ff,
        name: String::from("name"),
        tag: String::from("tag"),
        owner: String::from("owner"),
        canvas_code: String::from("1"),
        creation_ms: 1_600_000_000_000,
        member_count: 3,
        user_joined: true,
    }
}

#[test]
fn a_user_update_without_entries_mentions_nothing() {
    assert_eq!(
        collect_user_update(Vec::new()),
        UserUpdate { name_color: None, displayed_faction: None }
    );
    assert_eq!(
        collect_user_update(vec![UserUpdateEntry::Other, UserUpdateEntry::Other]),
        UserUpdate { name_color: None, displayed_faction: None }
    );
}

#[test]
fn a_user_update_takes_each_property() {
    assert_eq!(
        collect_user_update(vec![
            UserUpdateEntry::DisplayedFaction(Some(faction(4))),
            UserUpdateEntry::Other,
            UserUpdateEntry::NameColor(-3),
        ]),
        UserUpdate { name_color: Some(-3), displayed_faction: Some(Some(faction(4))) }
    );
}

#[test]
fn a_cleared_faction_differs_from_an_unmentioned_one() {
    assert_eq!(
        collect_user_update(vec![UserUpdateEntry::DisplayedFaction(None)]),
        UserUpdate { name_color: None, displayed_faction: Some(None) }
    );
}

#[test]
fn the_later_entry_for_a_property_counts() {
    assert_eq!(
        collect_user_update(vec![
            UserUpdateEntry::NameColor(1),
            UserUpdateEntry::DisplayedFaction(Some(faction(1))),
            UserUpdateEntry::NameColor(2),
            UserUpdateEntry::DisplayedFaction(None),
            UserUpdateEntry::NameColor(3),
        ]),
        UserUpdate { name_color: Some(3), displayed_faction: Some(None) }
    );
}
