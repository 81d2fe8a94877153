use notrs::call::{i32_arg, text_arg, Arg, CallError};
use notrs::duration::{count_words, duration_for_body};
use notrs::notify::{decode_notify, duration_for, format_message, render_request, DurationPolicy, RendererSettings};

#[test]
fn message_text_layout() {
    assert_eq!(
        format_message("Mail", "New message", "You have 2 unread items"),
        "[Mail]: New message - You have 2 unread items"
    );
    assert_eq!(format_message("", "", ""), "[]:  - ");
}

#[test]
fn four_word_body_lasts_4200() {
    assert_eq!(duration_for_body("one two three four"), 4200);
}

#[test]
fn word_count_duration_examples() {
    assert_eq!(duration_for_body(""), 3000);
    assert_eq!(duration_for_body("   "), 3000);
    assert_eq!(duration_for_body("word"), 3300);
    assert_eq!(duration_for_body("  a \t b\nc  "), 3900);
    assert_eq!(duration_for_body("You have 2 unread items"), 4500);
}

#[test]
fn words_are_counted_between_whitespace() {
    assert_eq!(count_words(""), 0);
    assert_eq!(count_words("a"), 1);
    assert_eq!(count_words(" a  b "), 2);
    assert_eq!(count_words("a\tb\nc\rd"), 4);
    assert_eq!(count_words("héllo wörld"), 2);
}

#[test]
fn duration_policies() {
    assert_eq!(duration_for(DurationPolicy::WordCount, "a b", Some(9000)), 3600);
    assert_eq!(duration_for(DurationPolicy::Requested { default_ms: 4000 }, "a b", Some(9000)), 9000);
    assert_eq!(duration_for(DurationPolicy::Requested { default_ms: 4000 }, "a b", Some(-1)), 4000);
    assert_eq!(duration_for(DurationPolicy::Requested { default_ms: 4000 }, "a b", None), 4000);
}

#[test]
fn decode_reads_positions() {
    let args = vec![
        Arg::Str("app".to_string()),
        Arg::U32(1),
        Arg::Str("icon".to_string()),
        Arg::Str("sum".to_string()),
        Arg::Str("body text".to_string()),
        Arg::StrList(vec!["default".to_string()]),
        Arg::Other,
        Arg::I32(-1),
    ];
    let req = decode_notify(&args).expect("decodes");
    assert_eq!(req.app_name, "app");
    assert_eq!(req.summary, "sum");
    assert_eq!(req.body, "body text");
    assert_eq!(req.expire_timeout, Some(-1));
    let s = RendererSettings { icon: 1, color: 0, duration: DurationPolicy::WordCount };
    let r = render_request(&req, &s);
    assert_eq!(r.message, "[app]: sum - body text");
    assert_eq!(r.duration_ms, 3600);
}

#[test]
fn decode_errors() {
    assert_eq!(decode_notify(&vec![]).unwrap_err(), CallError::MissingArgument);
    let args = vec![Arg::U32(1), Arg::U32(1), Arg::U32(1), Arg::U32(1), Arg::U32(1)];
    assert_eq!(decode_notify(&args).unwrap_err(), CallError::WrongArgumentType);
    let args = vec![
        Arg::Str("a".to_string()),
        Arg::U32(1),
        Arg::Str("i".to_string()),
        Arg::Str("s".to_string()),
    ];
    assert_eq!(decode_notify(&args).unwrap_err(), CallError::MissingArgument);
}

#[test]
fn positional_readers() {
    let args = vec![Arg::Str("x".to_string()), Arg::I32(5)];
    assert_eq!(text_arg(&args, 0).unwrap(), "x");
    assert_eq!(text_arg(&args, 1).unwrap_err(), CallError::WrongArgumentType);
    assert_eq!(text_arg(&args, 2).unwrap_err(), CallError::MissingArgument);
    assert_eq!(i32_arg(&args, 1), Some(5));
    assert_eq!(i32_arg(&args, 0), None);
    assert_eq!(i32_arg(&args, 9), None);
}

#[test]
fn unicode_spaces_separate_words() {
    assert_eq!(duration_for_body("a\u{3000}b"), 3600);
    assert_eq!(duration_for_body("\u{3000}"), 3000);
    assert_eq!(duration_for_body("a\u{a0}b\u{2003}c\u{85}d"), 4200);
    assert_eq!(count_words("x\u{2028}y\u{202f}z\u{205f}w\u{1680}v"), 5);
    assert_eq!(count_words("\u{2000}\u{200a}\u{2029}"), 0);
    assert_eq!(count_words("a\u{200b}b"), 1);
    for (body, words) in [("one", 1), ("one two", 2), ("  one\u{3000} two  ", 2)] {
        assert_eq!(count_words(body), words);
        assert_eq!(count_words(body), body.split_whitespace().count());
    }
}
