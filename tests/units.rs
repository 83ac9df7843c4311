use jotsy::account::{validate_signup, SignupForm};
use jotsy::codec::{bcrypt_hash, bcrypt_verify, generate_token, session_key, sha2, TOKEN_CHARSET, TOKEN_LEN};
use jotsy::error::SignupFailure;
use jotsy::notes::{encode_note, md_to_html, new_from_json, show_notes, Note};
use jotsy::pages::{redirect_home_if_cookie_set, Account, App, DeleteUI, LoginPage, NoticePage, SignupPage, SingleNote};
use jotsy::web::{create_cookie, create_remove_cookie, Expiry, COOKIE_TOKEN, COOKIE_USERNAME};

fn s(x: &str) -> String {
    x.to_string()
}

#[test]
fn sha2_is_upper_hex_digest() {
    assert_eq!(sha2(b"abc"), "BA7816BF8F01CFEA414140DE5DAE2223B00361A396177A9CB410FF61F20015AD");
    assert_eq!(sha2(b""), "E3B0C44298FC1C149AFBF4C8996FB92427AE41E4649B934CA495991B7852B855");
}

#[test]
fn session_key_hashes_secret() {
    assert_eq!(session_key("abc"), sha2(b"abc"));
    assert_ne!(session_key("abc"), "abc");
}

#[test]
fn token_shape() {
    let t = generate_token();
    assert_eq!(t.chars().count(), TOKEN_LEN);
    assert!(t.chars().all(|c| TOKEN_CHARSET.contains(c)));
    assert_eq!(TOKEN_CHARSET.len(), 91);
    assert_ne!(generate_token(), generate_token());
}

#[test]
fn bcrypt_round_trip() {
    let h = bcrypt_hash("password123").unwrap();
    assert_ne!(h, "password123");
    assert!(bcrypt_verify("password123", &h));
    assert!(!bcrypt_verify("password124", &h));
    assert!(!bcrypt_verify("password123", "not a hash"));
}

#[test]
fn markdown_rendering() {
    assert_eq!(md_to_html("**hi**"), "<p><strong>hi</strong></p>\n");
    assert_eq!(md_to_html("~~x~~"), "<p><del>x</del></p>\n");
}

#[test]
fn note_record_format() {
    let n = Note::new(s("March 01, 2022 | 10:00 AM"), s("say \"hi\"\n"));
    let rec = encode_note(&n);
    assert_eq!(rec, r#"{"date":"March 01, 2022 | 10:00 AM","body":"say \"hi\"\n"}"#);
    let back = new_from_json(&rec).unwrap();
    assert_eq!(back.date, "March 01, 2022 | 10:00 AM");
    assert_eq!(back.body, "<p>say &quot;hi&quot;</p>\n");
    assert!(new_from_json("[1, 2]").is_none());
    assert!(new_from_json(r#"{"date": 3, "body": "x"}"#).is_none());
}

#[test]
fn notes_shown_newest_first() {
    let entries = vec![
        encode_note(&Note::new(s("one"), s("a"))),
        encode_note(&Note::new(s("two"), s("b"))),
    ];
    let shown = show_notes(&entries).unwrap();
    assert_eq!(shown.len(), 2);
    assert_eq!(shown[0].date, "two");
    assert_eq!(shown[1].body, "<p>a</p>\n");
    assert!(show_notes(&vec![s("{}")]).is_none());
    assert!(show_notes(&Vec::new()).unwrap().is_empty());
}

#[test]
fn signup_validation_order() {
    let f = |u: &str, p: &str, v: &str| validate_signup(&SignupForm { username: s(u), password: s(p), vpassword: s(v) });
    assert_eq!(f("ab", "pw1", "pw2"), Some(SignupFailure::UsernameTooShort));
    assert_eq!(f("validname123", "pw1", "pw2"), Some(SignupFailure::PasswordMismatch));
    assert_eq!(f("validname123", "short", "short"), Some(SignupFailure::PasswordTooShort));
    assert_eq!(f("valid_name", "short", "short"), Some(SignupFailure::UsernameInvalidChars));
    assert_eq!(f("abcdef", "12345678", "12345678"), None);
    assert_eq!(f("abcde", "12345678", "12345678"), Some(SignupFailure::UsernameTooShort));
    assert_eq!(f("abcdef", "1234567", "1234567"), Some(SignupFailure::PasswordTooShort));
    assert_eq!(f("éééé", "12345678", "12345678"), Some(SignupFailure::UsernameInvalidChars));
}

#[test]
fn page_models() {
    assert!(LoginPage::render_new(true).login_failed);
    let e = NoticePage::e500();
    assert_eq!(e.message, "An internal server error occurred");
    assert!(!e.redirect);
    assert!(NoticePage::new_redirect("Logged in successfully.").redirect);
    assert_eq!(NoticePage::empty().message, "");
    assert_eq!(SignupPage::for_failure(SignupFailure::UsernameTaken).error.as_deref(), Some("Sorry, that username is taken"));
    assert_eq!(SignupPage::render_new("x").error.as_deref(), Some("x"));
    assert!(SignupPage::empty().error.is_none());
    let app = App::render_new(s("bob123"), vec![Note::new(s("d"), s("b"))]);
    assert_eq!(app.count, 1);
    assert_eq!(Account::render_new(4, s("bob123")).count, 4);
    let d = DeleteUI::for_account("bob123");
    assert_eq!((d.what.as_str(), d.action.as_str(), d.lose.as_str()), ("your account", "account", "your account and all your notes"));
    assert_eq!(DeleteUI::for_notes("bob123").action, "notes");
    let single = SingleNote::render_new(Note::new(s("d"), s("*x*")));
    assert_eq!(single.note.body, "<p><em>x</em></p>\n");
}

#[test]
fn redirect_when_cookie_set() {
    assert!(redirect_home_if_cookie_set(false, false).is_none());
    assert!(redirect_home_if_cookie_set(true, false).unwrap().redirect);
    assert!(redirect_home_if_cookie_set(false, true).is_some());
}

#[test]
fn cookie_attributes() {
    let c = create_cookie(COOKIE_USERNAME, "bob123");
    assert_eq!((c.name.as_str(), c.value.as_str(), c.path.as_str()), ("jotsy_user", "bob123", "/"));
    assert_eq!(c.expiry, Expiry::InDays(15));
    assert!(c.secure && c.http_only && c.same_site_strict);
    let r = create_remove_cookie(COOKIE_TOKEN);
    assert_eq!((r.name.as_str(), r.value.as_str()), ("jotsy_token", ""));
    assert_eq!(r.expiry, Expiry::Epoch);
}
