//! Small pieces: time parsing, tables, rendering, and the transport URLs.

use chatterbox::{
    check_day, check_time, get_days_by_month, get_string_from_query, month_number_str,
    str_eq, u32_to_string, CallbackQuery, Values,
};

#[test]
fn time_pattern_is_strict() {
    assert!(check_time("00:00"));
    assert!(check_time("23:59"));
    assert!(check_time("09:30"));
    assert!(!check_time("24:00"));
    assert!(!check_time("12:60"));
    assert!(!check_time("9:30"));
    assert!(!check_time("09.30"));
    assert!(!check_time("09:3"));
    assert!(!check_time(""));
    assert!(!check_time("ab:cd"));
}

#[test]
fn day_answers_allow_sign_and_zeros() {
    assert!(check_day("1", 31));
    assert!(check_day("31", 31));
    assert!(!check_day("32", 31));
    assert!(!check_day("0", 31));
    assert!(check_day("+5", 31));
    assert!(check_day("05", 31));
    assert!(!check_day("-5", 31));
    assert!(!check_day("", 31));
    assert!(!check_day("twelve", 31));
    assert!(!check_day("999999999999999999", 31));
}

#[test]
fn month_table_is_the_non_leap_table() {
    let expect = [
        ("January", 31),
        ("February", 28),
        ("March", 31),
        ("April", 30),
        ("May", 31),
        ("June", 30),
        ("July", 31),
        ("August", 31),
        ("September", 30),
        ("October", 31),
        ("November", 30),
        ("December", 31),
    ];
    for (i, (name, days)) in expect.iter().enumerate() {
        assert_eq!(get_days_by_month(&(*name).to_owned()), *days);
        assert_eq!(month_number_str(name), (i + 1) as u32);
        assert_eq!(month_number_str(&name.to_uppercase()), (i + 1) as u32);
    }
    assert_eq!(get_days_by_month(&"Undecimber".to_owned()), 0);
    assert_eq!(month_number_str("Undecimber"), 0);
}

#[test]
fn decimal_rendering_has_no_leading_zeros() {
    assert_eq!(u32_to_string(0), "0");
    assert_eq!(u32_to_string(7), "7");
    assert_eq!(u32_to_string(10), "10");
    assert_eq!(u32_to_string(1234), "1234");
    assert_eq!(u32_to_string(4294967295), "4294967295");
}

#[test]
fn string_equality_is_by_characters() {
    assert!(str_eq("abc", "abc"));
    assert!(!str_eq("abc", "abd"));
    assert!(!str_eq("abc", "ab"));
    assert!(str_eq("", ""));
}

#[test]
fn endpoint_urls_follow_the_fixed_layout() {
    let values = Values::new();
    let token = "123456:testtoken".to_owned();
    assert_eq!(
        values.get_url_send(&token),
        format!("https://api.telegram.org/bot{}/sendMessage", token)
    );
    assert_eq!(
        values.get_url_updates(&token),
        format!("https://api.telegram.org/bot{}/getUpdates", token)
    );
    assert_eq!(
        values.get_url_chat(&token),
        format!("https://api.telegram.org/bot{}/getChat", token)
    );
    assert_eq!(
        values.get_url_photo(&token),
        format!("https://api.telegram.org/bot{}/sendPhoto", token)
    );
    assert_eq!(
        values.get_url_video(&token),
        format!("https://api.telegram.org/bot{}/sendVideo", token)
    );
    assert_eq!(
        values.get_url_document(&token),
        format!("https://api.telegram.org/bot{}/sendDocument", token)
    );
    assert_eq!(
        values.get_url_audio(&token),
        format!("https://api.telegram.org/bot{}/sendAudio", token)
    );
    assert_eq!(
        values.get_url_voice(&token),
        format!("https://api.telegram.org/bot{}/sendVoice", token)
    );
}

#[test]
fn query_yields_button_label_and_chat() {
    let query = CallbackQuery {
        id: "q1".to_owned(),
        from: chatterbox::telegram::User { id: 5 },
        message: chatterbox::telegram::ChatMessage {
            chat: Some(chatterbox::telegram::Chat {
                id: 42,
                chat_type: None,
            }),
            from: None,
            text: None,
            video: None,
            document: None,
            photo: None,
            entities: None,
            voice: None,
        },
        data: "Weekly".to_owned(),
    };
    let (text, chat_id) = get_string_from_query(query);
    assert_eq!(text, "Weekly");
    assert_eq!(chat_id, 42);
}
