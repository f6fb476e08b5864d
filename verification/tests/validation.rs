use pastebin::models::{Auth, Paste, PasswordDto, User, UserSignIn};
use pastebin::validation::Rule;

fn s(x: &str) -> Option<String> {
    Some(x.to_string())
}

fn full_paste() -> Paste {
    Paste {
        id: None,
        user_id: s("u1"),
        username: s("bob"),
        title: s("hello"),
        paste: s("text"),
        description: None,
        tags: None,
        paste_password: None,
        is_private: None,
        created_at: None,
    }
}

const REQUIRED: &str = "Validation error: required [{\"value\": Null}]";

#[test]
fn complete_paste_passes() {
    assert!(full_paste().validate().is_ok());
}

#[test]
fn empty_paste_lists_every_required_field() {
    let errs = Paste::empty().validate().unwrap_err();
    let fields: Vec<&str> = errs.errors.iter().map(|e| e.field.as_str()).collect();
    assert_eq!(fields, vec!["user_id", "username", "title", "paste"]);
    assert!(errs.errors.iter().all(|e| e.rule == Rule::Required));
    assert_eq!(
        errs.to_message(),
        format!("user_id: {r}\nusername: {r}\ntitle: {r}\npaste: {r}", r = REQUIRED)
    );
}

#[test]
fn empty_texts_break_length_rules() {
    let mut p = full_paste();
    p.user_id = s("");
    p.paste = s("");
    let errs = p.validate().unwrap_err();
    assert_eq!(errs.errors.len(), 2);
    assert_eq!(errs.errors[0].rule, Rule::Length);
    assert_eq!(
        errs.to_message(),
        "user_id: Validation error: length [{\"min\": Number(1), \"value\": String(\"\")}]\npaste: Is required."
    );
}

#[test]
fn title_length_counts_characters() {
    let mut p = full_paste();
    p.title = Some("é".repeat(90));
    assert!(p.validate().is_ok());
    p.title = Some("x".repeat(91));
    let errs = p.validate().unwrap_err();
    assert_eq!(errs.to_message(), "title: Must be less than 90 characters.");
    p.title = s("");
    assert_eq!(p.validate().unwrap_err().to_message(), "title: Must be less than 90 characters.");
}

#[test]
fn auth_rules() {
    assert!(Auth { token: s("t") }.validate().is_ok());
    assert_eq!(
        Auth { token: None }.validate().unwrap_err().to_message(),
        format!("token: {}", REQUIRED)
    );
    assert_eq!(Auth { token: s("") }.validate().unwrap_err().to_message(), "token: Is required to auth.");
}

#[test]
fn signin_form_rules() {
    let ok = UserSignIn { id: None, email: s("a@b.cc"), passwd: s("pw") };
    assert!(ok.validate().is_ok());
    let bad = UserSignIn { id: None, email: s("nope"), passwd: None };
    assert_eq!(
        bad.validate().unwrap_err().to_message(),
        format!("email: Please enter a valid email address.\npasswd: {}", REQUIRED)
    );
    let long = UserSignIn { id: None, email: Some(format!("{}@b.cc", "a".repeat(100))), passwd: s("") };
    assert_eq!(long.validate().unwrap_err().to_message(), "email: Must be less than 100 characters.");
    let both = UserSignIn { id: None, email: Some("a".repeat(101)), passwd: s("x") };
    assert_eq!(
        both.validate().unwrap_err().to_message(),
        "email: Please enter a valid email address., Must be less than 100 characters."
    );
    let missing = UserSignIn { id: None, email: None, passwd: s("x") };
    let errs = missing.validate().unwrap_err();
    assert_eq!(errs.errors.len(), 1);
    assert_eq!(errs.errors[0].rule, Rule::Required);
}

#[test]
fn registration_rules() {
    let ok = User { id: None, username: s("bob"), email: s("bob@x.org"), passwd: s("pw") };
    assert!(ok.validate().is_ok());
    let bad = User { id: None, username: None, email: s("bob"), passwd: None };
    assert_eq!(
        bad.validate().unwrap_err().to_message(),
        format!("username: {r}\nemail: Please enter a valid email address.\npasswd: {r}", r = REQUIRED)
    );
}

#[test]
fn password_body_always_passes() {
    assert!(PasswordDto { password: None }.validate().is_ok());
    assert!(PasswordDto { password: s("") }.validate().is_ok());
}
