use pastebin::models::{Auth, Paste, PasteDTO, PasteUpdateDto, PasswordDto};
use pastebin::object_id::RecordId;
use pastebin::paste_api::{
    authorize, create_paste, create_paste_reply, delete_paste_reply, delete_paste_target, get_paste,
    get_paste_check, get_paste_reply, get_user_paste_check, get_user_paste_reply, new_paste,
    page_window, paste_change, resolve_paste, search_paste_reply, update_paste, update_paste_reply,
};
use pastebin::response::Status;

fn s(x: &str) -> Option<String> {
    Some(x.to_string())
}

fn request_paste() -> Paste {
    Paste {
        id: None,
        user_id: s("64b7f0c2a1b2c3d4e5f60718"),
        username: s("bob"),
        title: s("hello"),
        paste: s("some text"),
        description: s("desc"),
        tags: s("rust"),
        paste_password: s("pw"),
        is_private: Some(true),
        created_at: s("1999-01-01"),
    }
}

fn member_token() -> String {
    bcrypt::hash("64b7f0c2a1b2c3d4e5f60718", 4).unwrap()
}

fn dto(token: Option<String>) -> PasteDTO {
    PasteDTO { paste: request_paste(), auth: Auth { token } }
}

#[test]
fn guest_paste_is_public_and_owned_by_guest() {
    let p = new_paste(&dto(s("guest")), "2024-05-01".to_string()).unwrap();
    assert_eq!(p.id, None);
    assert_eq!(p.user_id, s("123guestid"));
    assert_eq!(p.username, s("guest"));
    assert_eq!(p.title, s("hello"));
    assert_eq!(p.paste, s("some text"));
    assert_eq!(p.description, s("desc"));
    assert_eq!(p.tags, s("rust"));
    assert_eq!(p.paste_password, s(""));
    assert_eq!(p.is_private, Some(false));
    assert_eq!(p.created_at, s("2024-05-01"));
}

#[test]
fn guest_paste_needs_title() {
    let mut d = dto(s("guest"));
    d.paste.title = None;
    let e = new_paste(&d, "2024-05-01".to_string()).unwrap_err();
    assert_eq!(e.status, Status::BadRequest);
    assert_eq!(e.message, "title: Validation error: required [{\"value\": Null}]");
}

#[test]
fn member_paste_with_valid_token() {
    let p = new_paste(&dto(Some(member_token())), "2024-05-02".to_string()).unwrap();
    assert_eq!(p.id, None);
    assert_eq!(p.user_id, s("64b7f0c2a1b2c3d4e5f60718"));
    assert_eq!(p.username, s("bob"));
    assert_eq!(p.paste_password, s("pw"));
    assert_eq!(p.is_private, Some(true));
    assert_eq!(p.created_at, s("2024-05-02"));
}

#[test]
fn member_paste_needs_token() {
    let e = new_paste(&dto(None), "d".to_string()).unwrap_err();
    assert_eq!(e.status, Status::BadRequest);
    assert_eq!(e.message, "token: Validation error: required [{\"value\": Null}]");
    let e = new_paste(&dto(s("")), "d".to_string()).unwrap_err();
    assert_eq!(e.message, "token: Is required to auth.");
}

#[test]
fn member_paste_checks_fields_before_token() {
    let mut d = dto(s("not a hash"));
    d.paste.username = s("");
    let e = new_paste(&d, "d".to_string()).unwrap_err();
    assert_eq!(e.status, Status::BadRequest);
    assert_eq!(
        e.message,
        "username: Validation error: length [{\"min\": Number(1), \"value\": String(\"\")}]"
    );
}

#[test]
fn member_paste_with_wrong_token_is_not_authorized() {
    let other = bcrypt::hash("someone else", 4).unwrap();
    let e = new_paste(&dto(Some(other)), "d".to_string()).unwrap_err();
    assert_eq!(e.status, Status::InternalServerError);
    assert_eq!(e.message, "Not authorized.");
    let e = new_paste(&dto(s("not a hash")), "d".to_string()).unwrap_err();
    assert_eq!(e.message, "Not authorized.");
}

#[test]
fn create_paste_dates_today() {
    let p = create_paste(&dto(s("guest"))).unwrap();
    let date = p.created_at.unwrap();
    assert_eq!(date.len(), 10);
    assert_eq!(&date[4..5], "-");
    assert_eq!(&date[7..8], "-");
    assert!(date.chars().filter(|c| *c != '-').all(|c| c.is_ascii_digit()));
    let e = create_paste(&dto(None)).unwrap_err();
    assert_eq!(e.status, Status::BadRequest);
}

#[test]
fn create_replies() {
    assert_eq!(create_paste_reply(true).unwrap(), "Paste created successfully.");
    let e = create_paste_reply(false).unwrap_err();
    assert_eq!(e.status.code(), 500);
    assert_eq!(e.message, "An error occurred while creating paste.");
}

#[test]
fn get_paste_checks() {
    let e = get_paste_check(&"bob".to_string(), &String::new(), &None).unwrap_err();
    assert_eq!(e.status, Status::BadRequest);
    assert_eq!(e.message, "Paste ID is required.");
    let e = get_paste_check(&String::new(), &"id".to_string(), &None).unwrap_err();
    assert_eq!(e.message, "Username is required.");
    assert!(get_paste_check(&"bob".to_string(), &"id".to_string(), &Some(PasswordDto { password: None })).is_ok());
}

#[test]
fn private_paste_opens_with_its_password() {
    let p = resolve_paste(Some(request_paste()), &s("pw")).unwrap();
    assert_eq!(p.title, s("hello"));
    assert_eq!(p.paste, s("some text"));
}

#[test]
fn private_paste_refuses_wrong_password() {
    let e = resolve_paste(Some(request_paste()), &s("nope")).unwrap_err();
    assert_eq!(e, "XIPP,Invalid password.");
}

#[test]
fn paste_without_password_given_is_empty() {
    let p = resolve_paste(Some(request_paste()), &None).unwrap();
    assert_eq!(p.title, None);
    assert_eq!(p.paste, None);
    let mut public = request_paste();
    public.is_private = None;
    let p = resolve_paste(Some(public), &s("pw")).unwrap();
    assert_eq!(p.paste, None);
    assert_eq!(p.user_id, None);
}

#[test]
fn missing_paste_is_not_found() {
    assert_eq!(resolve_paste(None, &s("pw")).unwrap_err(), "NF,Not Found.");
}

#[test]
fn get_paste_statuses() {
    let e = get_paste(None, &None).unwrap_err();
    assert_eq!(e.status, Status::NotFound);
    assert_eq!(e.message, "NF,Not Found.");
    let e = get_paste(None, &Some(PasswordDto { password: None })).unwrap_err();
    assert_eq!(e.status, Status::Unauthorized);
    let e = get_paste(Some(request_paste()), &Some(PasswordDto { password: s("bad") })).unwrap_err();
    assert_eq!(e.status.code(), 401);
    assert_eq!(e.message, "XIPP,Invalid password.");
    let p = get_paste(Some(request_paste()), &Some(PasswordDto { password: s("pw") })).unwrap();
    assert_eq!(p.tags, s("rust"));
    let r = get_paste_reply(Err("x".to_string()), false).unwrap_err();
    assert_eq!(r.status, Status::NotFound);
}

#[test]
fn page_windows() {
    let w = page_window(Some(1));
    assert_eq!((w.skip, w.limit), (0, 10));
    let w = page_window(None);
    assert_eq!((w.skip, w.limit), (0, 10));
    assert_eq!(page_window(Some(3)).skip, 20);
    for p in 1..50u64 {
        assert_eq!(page_window(Some(p + 1)).skip, page_window(Some(p)).skip + 10);
    }
    let last = u64::MAX / 10 + 1;
    assert_eq!(page_window(Some(last)).skip, (last - 1) * 10);
}

#[test]
fn user_list_checks_and_replies() {
    let e = get_user_paste_check(&String::new()).unwrap_err();
    assert_eq!(e.status, Status::BadRequest);
    assert_eq!(e.message, "Paste ID required or page query not found.");
    assert!(get_user_paste_check(&"u".to_string()).is_ok());
    assert_eq!(get_user_paste_reply(Ok(vec![Paste::empty()])).unwrap().len(), 1);
    let e = get_user_paste_reply(Err(())).unwrap_err();
    assert_eq!((e.status, e.message.as_str()), (Status::NotFound, "Pastes not found."));
}

#[test]
fn delete_targets_and_replies() {
    let e = delete_paste_target(&String::new()).unwrap_err();
    assert_eq!((e.status, e.message.as_str()), (Status::BadRequest, "Invalid ID."));
    let e = delete_paste_target(&"xyz".to_string()).unwrap_err();
    assert_eq!((e.status, e.message.as_str()), (Status::InternalServerError, "Error while deleting paste."));
    let r = delete_paste_target(&"64b7f0c2a1b2c3d4e5f60718".to_string()).unwrap();
    assert_eq!(r, RecordId::parse("64b7f0c2a1b2c3d4e5f60718").unwrap());
    assert_eq!(delete_paste_reply(true).unwrap(), "Paste deleted successfully.");
    assert_eq!(delete_paste_reply(false).unwrap_err().message, "Error while deleting paste.");
}

#[test]
fn change_request_checks_in_order() {
    let e = paste_change(&String::new(), &dto(None), "d".to_string()).unwrap_err();
    assert_eq!((e.status, e.message.as_str()), (Status::BadRequest, "Invalid ID."));
    let e = paste_change(&"bad".to_string(), &dto(None), "d".to_string()).unwrap_err();
    assert_eq!(e.status, Status::BadRequest);
    let e = paste_change(&"bad".to_string(), &dto(s("x")), "d".to_string()).unwrap_err();
    assert_eq!((e.status, e.message.as_str()), (Status::InternalServerError, "Not authorized."));
    let e = paste_change(&"bad".to_string(), &dto(Some(member_token())), "d".to_string()).unwrap_err();
    assert_eq!((e.status, e.message.as_str()), (Status::NotFound, "Paste not found."));
    let (id, p) =
        paste_change(&"64b7f0c2a1b2c3d4e5f60718".to_string(), &dto(Some(member_token())), "d".to_string())
            .unwrap();
    assert_eq!(id.to_hex(), "64b7f0c2a1b2c3d4e5f60718");
    assert_eq!(p.created_at, s("d"));
    assert_eq!(p.title, s("hello"));
}

#[test]
fn update_dates_today_and_replies() {
    let (_, p) = update_paste(&"64b7f0c2a1b2c3d4e5f60718".to_string(), &dto(Some(member_token()))).unwrap();
    assert_eq!(p.created_at.unwrap().len(), 10);
    assert_eq!(update_paste_reply(true).unwrap(), "Paste updated successfully.");
    let e = update_paste_reply(false).unwrap_err();
    assert_eq!((e.status, e.message.as_str()), (Status::NotFound, "Paste not found."));
}

#[test]
fn change_writes_five_fields() {
    let c = PasteUpdateDto::changes_of(&request_paste());
    assert_eq!(c.title, s("hello"));
    assert_eq!(c.paste, s("some text"));
    assert_eq!(c.description, s("desc"));
    assert_eq!(c.tags, s("rust"));
    assert_eq!(c.paste_password, s("pw"));
    assert_eq!(c.is_private, None);
}

#[test]
fn search_replies() {
    assert!(search_paste_reply(Ok(vec![])).unwrap().is_empty());
    let e = search_paste_reply(Err(())).unwrap_err();
    assert_eq!((e.status, e.message.as_str()), (Status::NotFound, "No results."));
}

#[test]
fn token_check_decisions() {
    assert!(authorize(Ok(true)).is_ok());
    let e = authorize(Ok(false)).unwrap_err();
    assert_eq!((e.status, e.message.as_str()), (Status::InternalServerError, "Not authorized."));
    let e = authorize(Err(())).unwrap_err();
    assert_eq!(e.message, "Not authorized.");
}

#[test]
fn refusal_is_the_same_on_any_day() {
    let today = create_paste(&dto(s(""))).unwrap_err();
    let other = new_paste(&dto(s("")), "1970-01-01".to_string()).unwrap_err();
    assert_eq!((today.status, today.message), (other.status, other.message));
}
