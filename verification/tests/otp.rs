use protoncode::models::OtpCandidateEmail;
use protoncode::otp::{
    detect_otp, find_otp_code, has_context_term, is_sparse_code_surface, label_of, looks_like_date,
    normalize_text, pick_code, select_code, try_detect_otp, SplitCharacter,
};
use protoncode::timestamp::Timestamp;

fn email(body_text: &str) -> OtpCandidateEmail {
    OtpCandidateEmail {
        message_id: "msg-1".to_owned(),
        sender: Some("Example".to_owned()),
        subject: Some("Security code".to_owned()),
        received_at: Timestamp::unix_epoch(),
        body_text: body_text.to_owned(),
    }
}

#[test]
fn extracts_code_with_context_term() {
    let result = detect_otp(&email(
        "Your verification code is 123456. It expires in 10 minutes.",
    ));
    assert_eq!(
        result.as_ref().map(|value| value.code.as_str()),
        Some("123456")
    );
}

#[test]
fn ignores_plain_numbers_without_context() {
    let result = detect_otp(&email("Invoice 2024 was paid on 2026-03-13."));
    assert!(result.is_none());
}

#[test]
fn supports_shorter_codes() {
    let result = detect_otp(&email("Use OTP 4812 to finish signing in."));
    assert_eq!(
        result.as_ref().map(|value| value.code.as_str()),
        Some("4812")
    );
}

#[test]
fn supports_grouped_digits() {
    let result = detect_otp(&email("Your verification code is 123 456."));
    assert_eq!(
        result.as_ref().map(|value| value.code.as_str()),
        Some("123456")
    );
}

#[test]
fn detects_code_from_all_mail_row_surface() {
    let mut candidate = email("Acme\nVerification code\n123456\nExpires in 10 minutes");
    candidate.sender = Some("Acme".to_owned());
    candidate.subject = Some("Verification code".to_owned());

    let result = detect_otp(&candidate);
    assert_eq!(
        result.as_ref().map(|value| value.code.as_str()),
        Some("123456")
    );
}

#[test]
fn uses_subject_context_when_body_contains_only_code() {
    let mut candidate = email("123456");
    candidate.subject = Some("Security code".to_owned());

    let result = detect_otp(&candidate);
    assert_eq!(
        result.as_ref().map(|value| value.code.as_str()),
        Some("123456")
    );
}

#[test]
fn ignores_date_like_values_even_with_subject_context() {
    let mut candidate = email("2026-03-13");
    candidate.subject = Some("Verification code".to_owned());

    let result = detect_otp(&candidate);
    assert!(result.is_none());
}

#[test]
fn detects_code_after_opened_message_fallback() {
    let mut candidate = email(
        "Acme security notice\nUse verification code 778899 to finish signing in.\nThis code expires in 10 minutes.",
    );
    candidate.subject = Some("Security notice".to_owned());

    let result = detect_otp(&candidate);
    assert_eq!(
        result.as_ref().map(|value| value.code.as_str()),
        Some("778899")
    );
}

#[test]
fn code_comes_with_its_source() {
    let found = detect_otp(&email("Your code: 123456")).expect("a code");
    assert_eq!(found.source_label, "Example");
}

#[test]
fn source_is_sender_then_subject_then_service() {
    let mut candidate = email("");
    assert_eq!(label_of(&candidate), "Example");
    candidate.sender = None;
    assert_eq!(label_of(&candidate), "Security code");
    candidate.subject = None;
    assert_eq!(label_of(&candidate), "Proton Mail");
}

#[test]
fn subject_is_searched_after_the_body() {
    let mut candidate = email("nothing to see");
    candidate.subject = Some("Your code is 90210".to_owned());
    assert_eq!(detect_otp(&candidate).expect("a code").code, "90210");
}

#[test]
fn code_lengths_are_four_to_eight_digits() {
    for (body, expected) in [
        ("code 123", None),
        ("code 1234", Some("1234")),
        ("code 12345678", Some("12345678")),
        ("code 123456789", None),
        ("code 1-2-3-4", Some("1234")),
        ("code 1--234", None),
        ("code a1234", None),
        ("code 1234b", None),
    ] {
        assert_eq!(find_otp_code(body, false), Ok(expected.map(str::to_owned)), "{}", body);
    }
}

#[test]
fn first_code_near_a_context_word_wins() {
    let far = "x".repeat(100);
    let text = format!("5555 {far} your code is 1234 or 6789");
    assert_eq!(find_otp_code(&text, false), Ok(Some("1234".to_owned())));
}

#[test]
fn context_reaches_seventy_two_bytes() {
    let near = format!("code{}1234", " ".repeat(68));
    let far = format!("code{}1234", " ".repeat(69));
    assert_eq!(find_otp_code(&near, false), Ok(Some("1234".to_owned())));
    assert_eq!(find_otp_code(&far, false), Ok(None));
}

#[test]
fn announced_text_needs_a_single_bare_code() {
    assert_eq!(find_otp_code("(12 34)", true), Ok(Some("1234".to_owned())));
    assert_eq!(find_otp_code("(12 34)", false), Ok(None));
    assert_eq!(find_otp_code("1234 | 5678x", true), Ok(None));
    assert_eq!(find_otp_code("1234, 5678", true), Ok(None));
}

#[test]
fn context_that_splits_a_character_is_reported() {
    // 71 bytes of spaces between the code and a character of two bytes, so
    // that the surroundings end inside that character.
    let text = format!("1234{}\u{e9}", " ".repeat(71));
    assert_eq!(find_otp_code(&text, false), Err(SplitCharacter));
    assert_eq!(try_detect_otp(&email(&text)), Err(SplitCharacter));
    let whole = format!("1234{}\u{e9}", " ".repeat(70));
    assert_eq!(find_otp_code(&whole, false), Ok(None));
}

#[test]
fn detection_that_succeeds_agrees_with_the_partial_one() {
    let candidate = email("Your code is 123 456.");
    assert_eq!(try_detect_otp(&candidate), Ok(detect_otp(&candidate)));
    assert_eq!(try_detect_otp(&email("hello")), Ok(None));
}

#[test]
fn bare_announced_code_is_the_code() {
    let mut candidate = email("90210");
    candidate.subject = Some("Your login code".to_owned());
    assert_eq!(detect_otp(&candidate).expect("a code").code, "90210");
    candidate.subject = Some("Hello".to_owned());
    assert!(detect_otp(&candidate).is_none());
}

#[test]
fn codes_are_selected_from_given_spans() {
    let text = "code 1234 and 5678";
    assert_eq!(select_code(text, &vec![(5, 9), (14, 18)], false), Ok(Some("1234".to_owned())));
    assert_eq!(select_code(text, &vec![(14, 18)], false), Ok(Some("5678".to_owned())));
    assert_eq!(select_code(text, &vec![], true), Ok(None));
    assert_eq!(select_code("2026-03-13", &vec![(0, 10)], true), Ok(None));
    assert_eq!(select_code("1234", &vec![(0, 4)], true), Ok(Some("1234".to_owned())));
    assert_eq!(select_code("1234", &vec![(0, 4)], false), Ok(None));
    // Any range of digits, hyphens and white space can be judged.
    assert_eq!(select_code("code x1234", &vec![(6, 10)], false), Ok(Some("1234".to_owned())));
    assert_eq!(select_code("code 12", &vec![(4, 7), (7, 7)], true), Ok(None));
}

#[test]
fn body_comes_before_subject() {
    let spans = vec![(5, 9)];
    assert_eq!(
        pick_code("code 1111", &spans, "code 2222", &spans),
        Ok(Some("1111".to_owned()))
    );
    assert_eq!(
        pick_code("nothing", &vec![], "code 2222", &spans),
        Ok(Some("2222".to_owned()))
    );
    assert_eq!(pick_code("1234", &vec![(0, 4)], "a code", &vec![]), Ok(Some("1234".to_owned())));
    assert_eq!(pick_code("1234", &vec![(0, 4)], "a note", &vec![]), Ok(None));
}

#[test]
fn every_context_word_counts() {
    for word in [
        "code", "verification", "2fa", "two-factor", "two factor", "one-time", "one time", "otp",
        "security", "signin", "sign in",
    ] {
        assert!(has_context_term(&format!("a {word} b")), "{}", word);
    }
    assert!(!has_context_term("a plain message"));
    assert!(!has_context_term("CODE"));
}

#[test]
fn text_is_normalized() {
    assert_eq!(normalize_text("A\u{a0}B\r\nC\rD\n"), "a b\nc\nd\n");
    assert_eq!(normalize_text("\u{c9}T\u{c9} \u{130}"), "\u{e9}t\u{e9} i\u{307}");
    let once = normalize_text("X\r\r\nY\u{a0}");
    assert_eq!(once, "x\n\ny ");
    assert_eq!(normalize_text(&once), once);
}

#[test]
fn dates_are_recognized() {
    assert!(looks_like_date("2026-03-13"));
    assert!(looks_like_date(" 2026-03-13\n"));
    assert!(!looks_like_date("2026-3-13"));
    assert!(!looks_like_date("20260313"));
    assert!(!looks_like_date("2026-03-13 1"));
    assert!(!looks_like_date("soon"));
    assert!(!looks_like_date("2026/03/13"));
    assert!(!looks_like_date("202a-03-13"));
}

#[test]
fn sparse_surfaces_are_recognized() {
    assert!(is_sparse_code_surface("12 34-56: (7), [8] | 9/0."));
    assert!(is_sparse_code_surface(""));
    assert!(is_sparse_code_surface("\u{2003}1234"));
    assert!(!is_sparse_code_surface("1234 x"));
    assert!(!is_sparse_code_surface("1234;"));
}

#[test]
fn codes_that_stand_apart_are_found() {
    for left in ["", " ", "(", "#", "a ", "12 - ", "1x ", "\u{e9}/", "7.", "\n\n"] {
        for right in ["", " ", ")", ". ", " - 9", ", 12", "\n", "/\u{e9}"] {
            let text = format!("{left}4711{right} code");
            assert_eq!(find_otp_code(&text, false), Ok(Some("4711".to_owned())), "{:?}", text);
        }
    }
    assert_eq!(find_otp_code("12-4711 code", false), Ok(Some("124711".to_owned())));
}

#[test]
fn letters_of_any_script_continue_a_word() {
    for text in ["code \u{e9}4711", "code 4711\u{e9}", "code 4711\u{436}", "code \u{0661}4711"] {
        assert_eq!(find_otp_code(text, false), Ok(None), "{:?}", text);
    }
}

#[test]
fn normalized_text_stays_as_it_is() {
    let text = normalize_text("A\u{a0}B\r\nC\rD Z");
    assert_eq!(text, "a b\nc\nd z");
    assert_eq!(normalize_text(&text), text);
}
