use vod_collector::dto::{deserialize_string_or_number, is_zero, FieldError, StringOrNumber, VodId};
use vod_collector::text::{
    chars_of, decimal_chars, parse_i64_chars, parse_u64_chars, same_text, signed_decimal_chars,
    split_chars, trim_chars,
};
use vod_collector::token::{generate_token, token_with_tail, validate_token};

fn s(v: Vec<char>) -> String {
    v.into_iter().collect()
}

#[test]
fn total_as_text_and_as_number_read_the_same() {
    assert_eq!(deserialize_string_or_number(&StringOrNumber::String("42".to_string())), Ok(42));
    assert_eq!(deserialize_string_or_number(&StringOrNumber::Number(42)), Ok(42));
}

#[test]
fn count_text_follows_the_decimal_reader() {
    let read = |t: &str| deserialize_string_or_number(&StringOrNumber::String(t.to_string()));
    assert_eq!(read("+7"), Ok(7));
    assert_eq!(read("007"), Ok(7));
    assert_eq!(read("18446744073709551615"), Ok(u64::MAX));
    assert_eq!(read("18446744073709551616"), Err(FieldError::NotANumber));
    assert_eq!(read(""), Err(FieldError::NotANumber));
    assert_eq!(read("+"), Err(FieldError::NotANumber));
    assert_eq!(read("-1"), Err(FieldError::NotANumber));
    assert_eq!(read("4 2"), Err(FieldError::NotANumber));
    assert_eq!(read("42.0"), Err(FieldError::NotANumber));
}

#[test]
fn unsigned_reader_agrees_with_std() {
    for t in ["0", "1", "+1", "-0", "99999999999999999999", "١٢", "12a", " 1", "+-1", ""] {
        assert_eq!(parse_u64_chars(&chars_of(t)), t.parse::<u64>().ok(), "{t:?}");
    }
}

#[test]
fn signed_reader_agrees_with_std() {
    for t in [
        "0", "-0", "+0", "-1", "+1", "9223372036854775807", "9223372036854775808",
        "-9223372036854775808", "-9223372036854775809", "-", "+", "", "--1", "1-", "२",
        "18446744073709551616", "-18446744073709551616",
    ] {
        assert_eq!(parse_i64_chars(&chars_of(t)), t.parse::<i64>().ok(), "{t:?}");
    }
}

#[test]
fn decimal_writer_agrees_with_std() {
    for n in [0u64, 7, 10, 99, 100, 12345, u64::MAX] {
        assert_eq!(s(decimal_chars(n)), n.to_string());
    }
    for n in [0i64, -1, 1, i64::MIN, i64::MAX, -1000] {
        assert_eq!(s(signed_decimal_chars(n)), n.to_string());
    }
}

#[test]
fn vod_id_text_and_number() {
    assert_eq!(VodId::Number(-15).to_string(), "-15");
    assert_eq!(VodId::String("abc".to_string()).to_string(), "abc");
    assert_eq!(VodId::Number(9).to_i64(), Some(9));
    assert_eq!(VodId::String("123".to_string()).to_i64(), Some(123));
    assert_eq!(VodId::String("-123".to_string()).to_i64(), Some(-123));
    assert_eq!(VodId::String("12x".to_string()).to_i64(), None);
    assert_eq!(VodId::String(String::new()).to_i64(), None);
}

#[test]
fn zero_test() {
    assert!(is_zero(&0));
    assert!(!is_zero(&3));
}

#[test]
fn split_agrees_with_std() {
    for t in ["", ",", "a", "a,b", ",a,,b,", "a,b,c"] {
        let got: Vec<String> = split_chars(&chars_of(t), ',').into_iter().map(s).collect();
        let want: Vec<String> = t.split(',').map(|p| p.to_string()).collect();
        assert_eq!(got, want, "{t:?}");
    }
}

#[test]
fn trim_agrees_with_std() {
    for t in ["", " ", "a", " a b ", "\t\n a\u{a0}", "\u{3000}x\u{2003}", "\u{200b}x", "\u{85}y\u{1680}"] {
        assert_eq!(s(trim_chars(&chars_of(t))), t.trim(), "{t:?}");
    }
}

#[test]
fn same_text_compares_characters() {
    assert!(same_text("停止", "停止"));
    assert!(!same_text("stopped", "stoppe"));
    assert!(!same_text("a", "b"));
    assert!(same_text("", ""));
}

#[test]
fn token_of_a_user_reads_back() {
    assert_eq!(validate_token("u1_tail"), Ok("u1".to_string()));
    assert_eq!(validate_token("u1_a_b"), Ok("u1".to_string()));
    assert_eq!(validate_token("_x"), Ok(String::new()));
    assert_eq!(validate_token("nounderscore"), Err("无效的令牌格式".to_string()));
    assert_eq!(validate_token(""), Err("无效的令牌格式".to_string()));
    assert_eq!(token_with_tail("u1", "t"), "u1_t");
}

#[test]
fn generated_token_has_a_fresh_tail() {
    let a = generate_token("64b0c0ffee");
    let b = generate_token("64b0c0ffee");
    assert_ne!(a, b);
    assert_eq!(validate_token(&a), Ok("64b0c0ffee".to_string()));
    let tail = &a["64b0c0ffee_".len()..];
    assert_eq!(tail.len(), 36);
    for (i, c) in tail.chars().enumerate() {
        if i == 8 || i == 13 || i == 18 || i == 23 {
            assert_eq!(c, '-');
        } else {
            assert!(c.is_ascii_digit() || ('a'..='f').contains(&c));
        }
    }
}
