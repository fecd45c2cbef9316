use live_lesson::utils::decimal::{parse_u64, u64_to_decimal};
use live_lesson::utils::session::{
    game_from_query, host_from_query, parse_session_id, room_from_query, session_from_query,
    session_id_text, checked_session_from_query, SessionQuery,
};
use live_lesson::utils::text::{is_key_chunk, is_true_flag, str_equals};

#[test]
fn decimal_of_zero() {
    assert_eq!(u64_to_decimal(0), "0");
}

#[test]
fn decimal_of_multi_digit_numbers() {
    assert_eq!(u64_to_decimal(7), "7");
    assert_eq!(u64_to_decimal(10), "10");
    assert_eq!(u64_to_decimal(1234567890), "1234567890");
}

#[test]
fn decimal_of_largest_u64() {
    assert_eq!(u64_to_decimal(u64::MAX), "18446744073709551615");
}

#[test]
fn decimal_matches_to_string() {
    let samples: Vec<u64> = vec![0, 1, 9, 99, 100, 4096, 65535, 1 << 40, u64::MAX - 1];
    for n in samples {
        assert_eq!(u64_to_decimal(n), n.to_string());
    }
}

#[test]
fn parse_plain_number() {
    assert_eq!(parse_u64("42"), Some(42));
    assert_eq!(parse_u64("0"), Some(0));
    assert_eq!(parse_u64("007"), Some(7));
}

#[test]
fn parse_accepts_leading_plus() {
    assert_eq!(parse_u64("+5"), Some(5));
}

#[test]
fn parse_rejects_empty_and_bare_sign() {
    assert_eq!(parse_u64(""), None);
    assert_eq!(parse_u64("+"), None);
    assert_eq!(parse_u64("-1"), None);
    assert_eq!(parse_u64("++1"), None);
}

#[test]
fn parse_rejects_other_characters() {
    assert_eq!(parse_u64("12a"), None);
    assert_eq!(parse_u64(" 12"), None);
    assert_eq!(parse_u64("1.0"), None);
    assert_eq!(parse_u64("\u{0663}"), None);
}

#[test]
fn parse_largest_and_overflow() {
    assert_eq!(parse_u64("18446744073709551615"), Some(u64::MAX));
    assert_eq!(parse_u64("18446744073709551616"), None);
    assert_eq!(parse_u64("99999999999999999999999"), None);
}

#[test]
fn parse_agrees_with_std() {
    let samples = ["", "+", "0", "+0", "12", "-3", "x", "18446744073709551616", "+18446744073709551615"];
    for s in samples.iter() {
        assert_eq!(parse_u64(s), s.parse::<u64>().ok());
    }
}

#[test]
fn decimal_then_parse_gives_number_back() {
    let samples: Vec<u64> = vec![0, 3, 10, 12345, u64::MAX];
    for n in samples {
        assert_eq!(parse_u64(u64_to_decimal(n).as_str()), Some(n));
    }
}

#[test]
fn str_equals_compares_whole_text() {
    assert!(str_equals("abc", "abc"));
    assert!(!str_equals("abc", "abd"));
    assert!(!str_equals("abc", "ab"));
    assert!(str_equals("", ""));
}

#[test]
fn key_chunk_only_for_key() {
    assert!(is_key_chunk("key"));
    assert!(!is_key_chunk("delta"));
    assert!(!is_key_chunk("Key"));
    assert!(!is_key_chunk(""));
}

#[test]
fn true_flag_only_for_true() {
    assert!(is_true_flag("true"));
    assert!(!is_true_flag("True"));
    assert!(!is_true_flag("false"));
    assert!(!is_true_flag("1"));
}

#[test]
fn session_id_text_is_hyphenated_lowercase() {
    let id: u128 = 0x67e5_5044_10b1_426f_9247_bb68_0e5f_e0c8;
    assert_eq!(session_id_text(id), "67e55044-10b1-426f-9247-bb680e5fe0c8");
    assert_eq!(session_id_text(0), "00000000-0000-0000-0000-000000000000");
    assert_eq!(session_id_text(u128::MAX), "ffffffff-ffff-ffff-ffff-ffffffffffff");
}

#[test]
fn session_id_text_parses_back() {
    let samples: Vec<u128> = vec![0, 1, 0x67e5_5044_10b1_426f_9247_bb68_0e5f_e0c8, u128::MAX];
    for id in samples {
        assert_eq!(parse_session_id(session_id_text(id).as_str()), Some(id));
    }
}

#[test]
fn parse_session_id_other_forms() {
    let id: u128 = 0x67e5_5044_10b1_426f_9247_bb68_0e5f_e0c8;
    assert_eq!(parse_session_id("67E55044-10B1-426F-9247-BB680E5FE0C8"), Some(id));
    assert_eq!(parse_session_id("67e5504410b1426f9247bb680e5fe0c8"), Some(id));
}

#[test]
fn parse_session_id_rejects_garbage() {
    assert_eq!(parse_session_id(""), None);
    assert_eq!(parse_session_id("abc"), None);
    assert_eq!(parse_session_id("67e55044-10b1-426f-9247-bb680e5fe0c"), None);
    assert_eq!(parse_session_id("g7e55044-10b1-426f-9247-bb680e5fe0c8"), None);
}

#[test]
fn session_from_query_cases() {
    assert_eq!(session_from_query(None), SessionQuery::Create);
    assert_eq!(
        session_from_query(Some("67e55044-10b1-426f-9247-bb680e5fe0c8")),
        SessionQuery::Join(0x67e5_5044_10b1_426f_9247_bb68_0e5f_e0c8)
    );
}

#[test]
fn checked_session_from_query_cases() {
    assert_eq!(checked_session_from_query(None), Some(SessionQuery::Create));
    assert_eq!(
        checked_session_from_query(Some("67e55044-10b1-426f-9247-bb680e5fe0c8")),
        Some(SessionQuery::Join(0x67e5_5044_10b1_426f_9247_bb68_0e5f_e0c8))
    );
    assert_eq!(checked_session_from_query(Some("not-a-session")), None);
    assert_eq!(checked_session_from_query(Some("")), None);
}

#[test]
fn host_flag_from_query() {
    assert!(host_from_query("true"));
    assert!(!host_from_query("false"));
    assert!(!host_from_query(""));
}

#[test]
fn room_from_query_cases() {
    let fresh = || "new".to_string();
    assert_eq!(room_from_query(None, Some("false".to_string()), fresh()), ("new".to_string(), true));
    assert_eq!(room_from_query(None, None, fresh()), ("new".to_string(), true));
    assert_eq!(
        room_from_query(Some("s1".to_string()), Some("true".to_string()), fresh()),
        ("s1".to_string(), true)
    );
    assert_eq!(
        room_from_query(Some("s1".to_string()), Some("no".to_string()), fresh()),
        ("s1".to_string(), false)
    );
    assert_eq!(room_from_query(Some("s1".to_string()), None, fresh()), ("s1".to_string(), false));
}

#[test]
fn game_from_query_cases() {
    let fresh = || "new".to_string();
    assert_eq!(game_from_query(None, None, fresh()), ("new".to_string(), true));
    assert_eq!(game_from_query(Some("s".to_string()), None, fresh()), ("new".to_string(), true));
    assert_eq!(game_from_query(None, Some("false".to_string()), fresh()), ("new".to_string(), true));
    assert_eq!(
        game_from_query(Some("s".to_string()), Some("true".to_string()), fresh()),
        ("s".to_string(), true)
    );
    assert_eq!(
        game_from_query(Some("s".to_string()), Some("false".to_string()), fresh()),
        ("s".to_string(), false)
    );
}
