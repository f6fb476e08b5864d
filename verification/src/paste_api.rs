//! Decisions of the paste endpoints: what a request must hold, which paste
//! is stored or changed, what a reader is shown, and the reply to each
//! outcome of the database work.

use vstd::prelude::*;
use vstd::string::StringExecFns;
use crate::auth::{token_accepted, verify_token};
use crate::models::{
    copy_text, empty_paste_view, Auth, Paste, PasteDTO, PasteDTOView, PasteUpdateDto, PasteView,
    PasswordDto,
};
use crate::object_id::{parse_record_id_spec, RecordId};
use crate::response::{api_error, refuse, text_ok, text_reply_view, ApiError, ApiErrorView, Status};
use crate::validation::{auth_errors, paste_errors, render_errors};

verus! {

pub open spec fn is_decimal_digit(c: char) -> bool {
    '0' <= c && c <= '9'
}

pub open spec fn two_digit_value(a: char, b: char) -> int {
    ((a as int) - ('0' as int)) * 10 + ((b as int) - ('0' as int))
}

/// Text of a date as `chrono` writes a `NaiveDate`: the year (four digits
/// for years 0 to 9999, otherwise a sign and at least four digits), `-`,
/// the month in two digits (01 to 12), `-`, the day in two digits (01 to 31).
pub open spec fn is_date_text(s: Seq<char>) -> bool {
    let n = s.len() as int;
    &&& n >= 10
    &&& s[n - 6] == '-'
    &&& s[n - 3] == '-'
    &&& is_decimal_digit(s[n - 5]) && is_decimal_digit(s[n - 4])
    &&& is_decimal_digit(s[n - 2]) && is_decimal_digit(s[n - 1])
    &&& 1 <= two_digit_value(s[n - 5], s[n - 4]) <= 12
    &&& 1 <= two_digit_value(s[n - 2], s[n - 1]) <= 31
    &&& {
        ||| (n == 10 && forall|i: int| 0 <= i < 4 ==> #[trigger] is_decimal_digit(s[i]))
        ||| (n >= 11 && (s[0] == '+' || s[0] == '-') && forall|i: int|
            1 <= i < n - 6 ==> #[trigger] is_decimal_digit(s[i]))
    }
}

/// Today's date in UTC, as `chrono` writes a `NaiveDate`
/// (`Utc::now().date_naive().to_string()`): chrono's `Display` for
/// `NaiveDate` writes the year in four digits when it lies in 0 to 9999 and
/// as `{:+05}` otherwise, then `-`, the month and the day in two digits
/// each. Which day it is depends on the clock and is not stated.
#[verifier::external_body]
fn today() -> (res: String)
    ensures
        is_date_text(res@),
{
    chrono::Utc::now().date_naive().to_string()
}

pub open spec fn paste_result_view(r: Result<Paste, ApiError>) -> Result<PasteView, ApiErrorView> {
    match r {
        Ok(p) => Ok(p@),
        Err(e) => Err(e@),
    }
}

/// The author id of guest pastes.
pub open spec fn guest_user_id() -> Seq<char> {
    "123guestid"@
}

/// A request comes from a guest when its token is the word `guest`.
pub open spec fn is_guest(token: Option<Seq<char>>) -> bool {
    token == Some("guest"@)
}

/// The paste stored for a guest: the request's title, text, description and
/// tags, the guest author, no password, public, dated `created_at`.
pub open spec fn guest_paste(p: PasteView, created_at: Seq<char>) -> PasteView {
    PasteView {
        id: None,
        user_id: Some(guest_user_id()),
        username: Some("guest"@),
        title: p.title,
        paste: p.paste,
        description: p.description,
        tags: p.tags,
        paste_password: Some(Seq::empty()),
        is_private: Some(false),
        created_at: Some(created_at),
    }
}

/// The paste stored (or written) for a member: every field of the request
/// but the id, dated `created_at`.
pub open spec fn member_paste(p: PasteView, created_at: Seq<char>) -> PasteView {
    PasteView { id: None, created_at: Some(created_at), ..p }
}

/// Refusal for broken field rules.
pub open spec fn invalid(errs: Seq<crate::validation::FieldErrorView>) -> ApiErrorView {
    api_error(Status::BadRequest, render_errors(errs))
}

/// Checks of a member's paste request, in order: the credentials' rules,
/// the paste's rules, then the token against the author id.
pub open spec fn member_checks(dto: PasteDTOView, p: PasteView) -> Option<ApiErrorView> {
    if auth_errors(dto.token).len() > 0 {
        Some(invalid(auth_errors(dto.token)))
    } else if paste_errors(p).len() > 0 {
        Some(invalid(paste_errors(p)))
    } else if !token_accepted(p.user_id->0, dto.token->0) {
        Some(api_error(Status::InternalServerError, "Not authorized."@))
    } else {
        None
    }
}

/// The paste to store for a creation request made on `created_at`, or the
/// refusal.
pub open spec fn create_paste_spec(dto: PasteDTOView, created_at: Seq<char>) -> Result<
    PasteView,
    ApiErrorView,
> {
    if is_guest(dto.token) {
        let p = guest_paste(dto.paste, created_at);
        if paste_errors(p).len() > 0 {
            Err(invalid(paste_errors(p)))
        } else {
            Ok(p)
        }
    } else {
        let p = member_paste(dto.paste, created_at);
        match member_checks(dto, p) {
            Some(e) => Err(e),
            None => Ok(p),
        }
    }
}

fn invalid_request(errs: crate::validation::ValidationErrors) -> (res: ApiError)
    ensures
        res@ == invalid(errs@),
{
    ApiError { status: Status::BadRequest, message: errs.to_message() }
}

fn is_guest_token(token: &Option<String>) -> (res: bool)
    ensures
        res == is_guest(token.deep_view()),
{
    match token {
        Some(t) => {
            let guest = String::from_str("guest");
            *t == guest
        },
        None => false,
    }
}

fn member_record(p: &Paste, created_at: String) -> (res: Paste)
    ensures
        res@ == member_paste(p@, created_at@),
{
    Paste {
        id: None,
        user_id: copy_text(&p.user_id),
        username: copy_text(&p.username),
        title: copy_text(&p.title),
        paste: copy_text(&p.paste),
        description: copy_text(&p.description),
        tags: copy_text(&p.tags),
        paste_password: copy_text(&p.paste_password),
        is_private: p.is_private,
        created_at: Some(created_at),
    }
}

/// The decision on a token check: only `Ok(true)` lets the request on; a
/// mismatch or an unreadable token is refused with 500 `Not authorized.`.
pub fn authorize(token_check: Result<bool, ()>) -> (res: Result<(), ApiError>)
    ensures
        token_check == Ok::<bool, ()>(true) ==> res is Ok,
        token_check != Ok::<bool, ()>(true) ==> (res matches Err(e) && e@ == api_error(
            Status::InternalServerError,
            "Not authorized."@,
        )),
{
    match token_check {
        Ok(true) => Ok(()),
        _ => refuse(Status::InternalServerError, "Not authorized."),
    }
}

/// Runs the member checks on a request and the paste built from it.
fn check_member(dto: &PasteDTO, p: &Paste) -> (res: Result<(), ApiError>)
    requires
        p@ == member_paste(dto.paste@, p@.created_at->0),
    ensures
        match member_checks(dto@, p@) {
            Some(e) => res matches Err(r) && r@ == e,
            None => res is Ok,
        },
{
    let auth = Auth { token: copy_text(&dto.auth.token) };
    match auth.validate() {
        Ok(()) => {},
        Err(errs) => {
            return Err(invalid_request(errs));
        },
    }
    match p.validate() {
        Ok(()) => {},
        Err(errs) => {
            return Err(invalid_request(errs));
        },
    }
    let user_id = p.user_id.as_ref().unwrap();
    let token = dto.auth.token.as_ref().unwrap();
    authorize(verify_token(user_id, token))
}

/// A creation request's refusal does not depend on the day it is made.
pub proof fn lemma_create_refusal_ignores_date(dto: PasteDTOView, d1: Seq<char>, d2: Seq<char>)
    ensures
        create_paste_spec(dto, d1) is Err ==> create_paste_spec(dto, d2) == create_paste_spec(
            dto,
            d1,
        ),
{
    let p1 = member_paste(dto.paste, d1);
    let p2 = member_paste(dto.paste, d2);
    assert(paste_errors(p1) == paste_errors(p2));
    let g1 = guest_paste(dto.paste, d1);
    let g2 = guest_paste(dto.paste, d2);
    assert(paste_errors(g1) == paste_errors(g2));
}

/// Every stored paste: has no id of its own, is dated the day of the
/// request, passes the paste rules; a guest's is public, without password,
/// under the guest author; a member's keeps the request's fields and its
/// token verifies for the paste's author id.
pub proof fn lemma_created_paste(dto: PasteDTOView, date: Seq<char>)
    ensures
        create_paste_spec(dto, date) matches Ok(p) ==> {
            &&& p.id is None
            &&& p.created_at == Some(date)
            &&& paste_errors(p).len() == 0
            &&& is_guest(dto.token) ==> {
                &&& p.user_id == Some(guest_user_id())
                &&& p.username == Some("guest"@)
                &&& p.is_private == Some(false)
                &&& p.paste_password == Some(Seq::<char>::empty())
            }
            &&& !is_guest(dto.token) ==> {
                &&& p == member_paste(dto.paste, date)
                &&& token_accepted(p.user_id->0, dto.token->0)
            }
        },
{
}

/// A member's stored paste keeps every field of the request paste but its
/// id (none) and its date (the day of the request); a guest's keeps the
/// request's title, text, description and tags.
pub proof fn lemma_created_paste_keeps_request(dto: PasteDTOView, date: Seq<char>)
    ensures
        create_paste_spec(dto, date) matches Ok(p) ==> {
            &&& p.title == dto.paste.title
            &&& p.paste == dto.paste.paste
            &&& p.description == dto.paste.description
            &&& p.tags == dto.paste.tags
            &&& p.id is None
            &&& p.created_at == Some(date)
            &&& !is_guest(dto.token) ==> {
                &&& p.user_id == dto.paste.user_id
                &&& p.username == dto.paste.username
                &&& p.paste_password == dto.paste.paste_password
                &&& p.is_private == dto.paste.is_private
            }
        },
{
}

/// The paste to store for a creation request made on `created_at`: a guest
/// request (token `guest`) stores a public paste without password under the
/// guest author; a member request must carry a token, a complete paste and
/// a token that verifies for the paste's author id.
pub fn new_paste(dto: &PasteDTO, created_at: String) -> (res: Result<Paste, ApiError>)
    ensures
        paste_result_view(res) == create_paste_spec(dto@, created_at@),
{
    if is_guest_token(&dto.auth.token) {
        let p = Paste {
            id: None,
            user_id: Some(String::from_str("123guestid")),
            username: Some(String::from_str("guest")),
            title: copy_text(&dto.paste.title),
            paste: copy_text(&dto.paste.paste),
            description: copy_text(&dto.paste.description),
            tags: copy_text(&dto.paste.tags),
            paste_password: Some(String::new()),
            is_private: Some(false),
            created_at: Some(created_at),
        };
        assert(p@ == guest_paste(dto.paste@, created_at@));
        match p.validate() {
            Ok(()) => Ok(p),
            Err(errs) => Err(invalid_request(errs)),
        }
    } else {
        let p = member_record(&dto.paste, created_at);
        match check_member(dto, &p) {
            Ok(()) => Ok(p),
            Err(e) => Err(e),
        }
    }
}

/// The paste to store for a creation request, dated today (UTC): as
/// `new_paste` for whatever date the clock gives, written `YYYY-MM-DD`.
pub fn create_paste(dto: &PasteDTO) -> (res: Result<Paste, ApiError>)
    ensures
        exists|date: Seq<char>|
            is_date_text(date) && paste_result_view(res) == create_paste_spec(dto@, date),
        res is Err ==> forall|date: Seq<char>| paste_result_view(res) == create_paste_spec(dto@, date),
{
    let date = today();
    let ghost d = date@;
    let res = new_paste(dto, date);
    assert(paste_result_view(res) == create_paste_spec(dto@, d));
    proof {
        assert forall|date: Seq<char>| res is Err implies paste_result_view(res) == create_paste_spec(
            dto@,
            date,
        ) by {
            lemma_create_refusal_ignores_date(dto@, d, date);
        }
    }
    res
}

/// Reply once the store was asked to keep the paste.
pub fn create_paste_reply(stored: bool) -> (res: Result<String, ApiError>)
    ensures
        text_reply_view(res) == if stored {
            Ok::<Seq<char>, ApiErrorView>("Paste created successfully."@)
        } else {
            Err(api_error(Status::InternalServerError, "An error occurred while creating paste."@))
        },
{
    if stored {
        text_ok("Paste created successfully.")
    } else {
        refuse(Status::InternalServerError, "An error occurred while creating paste.")
    }
}

/// Checks a request to read a paste: the paste id, then the author name,
/// must be non-empty; a password body has no rules that can fail.
pub fn get_paste_check(username: &String, id: &String, pass: &Option<PasswordDto>) -> (res:
    Result<(), ApiError>)
    ensures
        id@.len() == 0 ==> (res matches Err(e) && e@ == api_error(
            Status::BadRequest,
            "Paste ID is required."@,
        )),
        id@.len() > 0 && username@.len() == 0 ==> (res matches Err(e) && e@ == api_error(
            Status::BadRequest,
            "Username is required."@,
        )),
        id@.len() > 0 && username@.len() > 0 ==> res is Ok,
{
    if id.as_str().is_empty() {
        return refuse(Status::BadRequest, "Paste ID is required.");
    }
    if username.as_str().is_empty() {
        return refuse(Status::BadRequest, "Username is required.");
    }
    match pass {
        Some(p) => match p.validate() {
            Ok(()) => {},
            Err(errs) => {
                return Err(invalid_request(errs));
            },
        },
        None => {},
    }
    Ok(())
}

/// What a reader asking for a stored paste is given: `NF,Not Found.` where
/// there is none; where the paste is private, has a password and the
/// reader gave one, the paste if the passwords are equal and
/// `XIPP,Invalid password.` if not; in every other case a paste with no
/// fields.
pub open spec fn resolve_paste_spec(found: Option<PasteView>, password: Option<Seq<char>>) -> Result<
    PasteView,
    Seq<char>,
> {
    match found {
        None => Err("NF,Not Found."@),
        Some(p) => if p.is_private is Some && p.paste_password is Some && password is Some {
            if p.paste_password == password {
                Ok(p)
            } else {
                Err("XIPP,Invalid password."@)
            }
        } else {
            Ok(empty_paste_view())
        },
    }
}

pub open spec fn resolved_view(r: Result<Paste, String>) -> Result<PasteView, Seq<char>> {
    match r {
        Ok(p) => Ok(p@),
        Err(m) => Err(m@),
    }
}

pub open spec fn opt_paste_view(o: Option<Paste>) -> Option<PasteView> {
    match o {
        Some(p) => Some(p@),
        None => None,
    }
}

/// What a reader is given of the paste the store found for the id and
/// author asked for (see `resolve_paste_spec`).
pub fn resolve_paste(found: Option<Paste>, password: &Option<String>) -> (res: Result<Paste, String>)
    ensures
        resolved_view(res) == resolve_paste_spec(opt_paste_view(found), password.deep_view()),
{
    match found {
        None => Err(String::from_str("NF,Not Found.")),
        Some(p) => {
            if p.is_private.is_some() && p.paste_password.is_some() && password.is_some() {
                let stored = p.paste_password.as_ref().unwrap();
                let given = password.as_ref().unwrap();
                if *stored == *given {
                    Ok(p)
                } else {
                    Err(String::from_str("XIPP,Invalid password."))
                }
            } else {
                Ok(Paste::empty())
            }
        },
    }
}

/// A reader is never given a paste's content without its password: what
/// is given is either the paste with no fields, or the stored paste itself,
/// private, with a password, asked for with exactly that password.
pub proof fn lemma_no_content_without_password(found: Option<PasteView>, password: Option<Seq<char>>)
    ensures
        resolve_paste_spec(found, password) matches Ok(q) ==> q == empty_paste_view() || (found
            == Some(q) && q.is_private is Some && q.paste_password is Some && password
            == q.paste_password),
{
}

/// Asking for a private paste with a password with that password gives the
/// paste; with any other password, `XIPP,Invalid password.`.
pub proof fn lemma_password_opens_paste(p: PasteView, given: Seq<char>)
    requires
        p.is_private is Some,
        p.paste_password is Some,
    ensures
        p.paste_password == Some(given) ==> resolve_paste_spec(Some(p), Some(given)) == Ok::<
            PasteView,
            Seq<char>,
        >(p),
        p.paste_password != Some(given) ==> resolve_paste_spec(Some(p), Some(given)) == Err::<
            PasteView,
            Seq<char>,
        >("XIPP,Invalid password."@),
{
}

/// Unless the stored paste is private, has a password and the reader gave
/// one, the reader is given a paste with every field absent.
pub proof fn lemma_unprotected_read_is_empty(p: PasteView, password: Option<Seq<char>>)
    requires
        !(p.is_private is Some && p.paste_password is Some && password is Some),
    ensures
        resolve_paste_spec(Some(p), password) == Ok::<PasteView, Seq<char>>(
            PasteView {
                id: None,
                user_id: None,
                username: None,
                title: None,
                paste: None,
                description: None,
                tags: None,
                paste_password: None,
                is_private: None,
                created_at: None,
            },
        ),
{
}

/// Reply to a read: the paste, or the refusal text with status 401 where
/// the request carried a password body and 404 where it did not.
pub fn get_paste_reply(res: Result<Paste, String>, with_password: bool) -> (reply: Result<
    Paste,
    ApiError,
>)
    ensures
        paste_result_view(reply) == match resolved_view(res) {
            Ok(p) => Ok(p),
            Err(m) => Err(
                api_error(
                    if with_password {
                        Status::Unauthorized
                    } else {
                        Status::NotFound
                    },
                    m,
                ),
            ),
        },
{
    match res {
        Ok(p) => Ok(p),
        Err(m) => Err(
            ApiError {
                status: if with_password {
                    Status::Unauthorized
                } else {
                    Status::NotFound
                },
                message: m,
            },
        ),
    }
}

/// The whole read decision after the store was asked: what the reader
/// is given and with which status a refusal goes back.
pub fn get_paste(found: Option<Paste>, pass: &Option<PasswordDto>) -> (reply: Result<Paste, ApiError>)
    ensures
        paste_result_view(reply) == match resolve_paste_spec(
            opt_paste_view(found),
            match pass {
                Some(p) => p.password.deep_view(),
                None => None,
            },
        ) {
            Ok(p) => Ok(p),
            Err(m) => Err(
                api_error(
                    if pass is Some {
                        Status::Unauthorized
                    } else {
                        Status::NotFound
                    },
                    m,
                ),
            ),
        },
{
    match pass {
        Some(p) => get_paste_reply(resolve_paste(found, &p.password), true),
        None => get_paste_reply(resolve_paste(found, &None), false),
    }
}

/// Number of pastes on a page of a user's list.
pub open spec fn page_size() -> int {
    10
}

/// Number of pastes before page `page` (pages count from 1).
pub open spec fn page_skip(page: int) -> int {
    (page - 1) * page_size()
}

/// The slice of a user's pastes the store is asked for.
#[derive(Debug, Clone, Copy)]
pub struct PageWindow {
    pub skip: u64,
    pub limit: i64,
}

/// The page asked for, page 1 where none was given.
pub open spec fn page_of(page_param: Option<u64>) -> int {
    match page_param {
        Some(p) => p as int,
        None => 1,
    }
}

/// The slice of a user's pastes for a page: `limit` 10 pastes after
/// skipping those of the earlier pages. Page 0, and pages whose offset does
/// not fit in 64 bits, are outside what the list accepts.
pub fn page_window(page_param: Option<u64>) -> (res: PageWindow)
    requires
        page_of(page_param) >= 1,
        page_skip(page_of(page_param)) <= u64::MAX,
    ensures
        res.skip == page_skip(page_of(page_param)),
        res.limit == page_size(),
{
    let page: u64 = match page_param {
        Some(p) => p,
        None => 1,
    };
    PageWindow { skip: (page - 1) * 10, limit: 10 }
}

/// Consecutive pages are adjacent slices: page `p + 1` starts where page
/// `p` ends, and page 1 starts at the first paste.
pub proof fn lemma_pages_adjacent(p: int)
    requires
        p >= 1,
    ensures
        page_skip(p + 1) == page_skip(p) + page_size(),
        page_skip(1) == 0,
{
}

/// Different pages never share a paste: their slices do not overlap.
pub proof fn lemma_pages_disjoint(p: int, q: int)
    requires
        1 <= p < q,
    ensures
        page_skip(p) + page_size() <= page_skip(q),
{
    assert((q - 1) * 10 >= p * 10) by (nonlinear_arith)
        requires
            p < q,
    ;
}

/// Checks a request for a user's list: the user id must be non-empty.
pub fn get_user_paste_check(id: &String) -> (res: Result<(), ApiError>)
    ensures
        id@.len() == 0 ==> (res matches Err(e) && e@ == api_error(
            Status::BadRequest,
            "Paste ID required or page query not found."@,
        )),
        id@.len() > 0 ==> res is Ok,
{
    if id.as_str().is_empty() {
        refuse(Status::BadRequest, "Paste ID required or page query not found.")
    } else {
        Ok(())
    }
}

/// Reply to a list request: the pastes, or 404 `Pastes not found.`.
pub fn get_user_paste_reply(res: Result<Vec<Paste>, ()>) -> (reply: Result<Vec<Paste>, ApiError>)
    ensures
        match res {
            Ok(v) => reply matches Ok(w) && w == v,
            Err(()) => reply matches Err(e) && e@ == api_error(Status::NotFound, "Pastes not found."@),
        },
{
    match res {
        Ok(v) => Ok(v),
        Err(()) => refuse(Status::NotFound, "Pastes not found."),
    }
}

/// The record a deletion request names: `Invalid ID.` (400) for an empty
/// id, `Error while deleting paste.` (500) for text that is not 24 hex
/// digits.
pub fn delete_paste_target(paste_id: &String) -> (res: Result<RecordId, ApiError>)
    ensures
        paste_id@.len() == 0 ==> (res matches Err(e) && e@ == api_error(
            Status::BadRequest,
            "Invalid ID."@,
        )),
        paste_id@.len() > 0 ==> match parse_record_id_spec(paste_id@) {
            Some(b) => res matches Ok(r) && r.bytes@ == b,
            None => res matches Err(e) && e@ == api_error(
                Status::InternalServerError,
                "Error while deleting paste."@,
            ),
        },
{
    if paste_id.as_str().is_empty() {
        return refuse(Status::BadRequest, "Invalid ID.");
    }
    match RecordId::parse(paste_id.as_str()) {
        Some(r) => Ok(r),
        None => refuse(Status::InternalServerError, "Error while deleting paste."),
    }
}

/// Reply once the store was asked to remove the paste: whether it removed one.
pub fn delete_paste_reply(removed: bool) -> (res: Result<String, ApiError>)
    ensures
        text_reply_view(res) == if removed {
            Ok::<Seq<char>, ApiErrorView>("Paste deleted successfully."@)
        } else {
            Err(api_error(Status::InternalServerError, "Error while deleting paste."@))
        },
{
    if removed {
        text_ok("Paste deleted successfully.")
    } else {
        refuse(Status::InternalServerError, "Error while deleting paste.")
    }
}

pub open spec fn change_view(r: Result<(RecordId, Paste), ApiError>) -> Result<
    (Seq<u8>, PasteView),
    ApiErrorView,
> {
    match r {
        Ok((id, p)) => Ok((id.bytes@, p@)),
        Err(e) => Err(e@),
    }
}

/// The record to change and the paste to write for a change request made
/// on `created_at`, or the refusal. The checks, in order: a non-empty id,
/// the credentials' rules, the paste's rules, the token against the author
/// id, and last an id of 24 hex digits.
pub open spec fn update_paste_spec(paste_id: Seq<char>, dto: PasteDTOView, created_at: Seq<
    char,
>) -> Result<(Seq<u8>, PasteView), ApiErrorView> {
    if paste_id.len() == 0 {
        Err(api_error(Status::BadRequest, "Invalid ID."@))
    } else {
        let p = member_paste(dto.paste, created_at);
        match member_checks(dto, p) {
            Some(e) => Err(e),
            None => match parse_record_id_spec(paste_id) {
                None => Err(api_error(Status::NotFound, "Paste not found."@)),
                Some(b) => Ok((b, p)),
            },
        }
    }
}

/// The record to change and the paste to write for a change request made
/// on `created_at` (see `update_paste_spec`).
pub fn paste_change(paste_id: &String, dto: &PasteDTO, created_at: String) -> (res: Result<
    (RecordId, Paste),
    ApiError,
>)
    ensures
        change_view(res) == update_paste_spec(paste_id@, dto@, created_at@),
{
    if paste_id.as_str().is_empty() {
        return refuse(Status::BadRequest, "Invalid ID.");
    }
    let p = member_record(&dto.paste, created_at);
    match check_member(dto, &p) {
        Ok(()) => {},
        Err(e) => {
            return Err(e);
        },
    }
    match RecordId::parse(paste_id.as_str()) {
        Some(r) => Ok((r, p)),
        None => refuse(Status::NotFound, "Paste not found."),
    }
}

/// The record to change and the paste to write for a change request,
/// dated today (UTC): as `paste_change` for whatever date the clock gives,
/// written `YYYY-MM-DD`.
pub fn update_paste(paste_id: &String, dto: &PasteDTO) -> (res: Result<(RecordId, Paste), ApiError>)
    ensures
        exists|date: Seq<char>|
            is_date_text(date) && change_view(res) == update_paste_spec(paste_id@, dto@, date),
{
    let date = today();
    let ghost d = date@;
    let res = paste_change(paste_id, dto, date);
    assert(change_view(res) == update_paste_spec(paste_id@, dto@, d));
    res
}

/// A change is only ever written for a member whose token verifies for the
/// author id of the paste written, to the record its id text names, and the
/// paste written passes the paste rules.
pub proof fn lemma_change_needs_token(paste_id: Seq<char>, dto: PasteDTOView, date: Seq<char>)
    ensures
        update_paste_spec(paste_id, dto, date) matches Ok((b, p)) ==> {
            &&& token_accepted(p.user_id->0, dto.token->0)
            &&& parse_record_id_spec(paste_id) == Some(b)
            &&& p == member_paste(dto.paste, date)
            &&& paste_errors(p).len() == 0
        },
{
}

impl PasteUpdateDto {
    /// The fields a change writes over the stored paste: title, text,
    /// description, tags and password, as the checked paste holds them
    /// (an absent field is written as absent). A change never writes
    /// `is_private`: it is left absent here and stays as stored.
    pub fn changes_of(p: &Paste) -> (res: PasteUpdateDto)
        ensures
            res.title.deep_view() == p@.title,
            res.paste.deep_view() == p@.paste,
            res.description.deep_view() == p@.description,
            res.tags.deep_view() == p@.tags,
            res.paste_password.deep_view() == p@.paste_password,
            res.is_private is None,
    {
        PasteUpdateDto {
            title: copy_text(&p.title),
            paste: copy_text(&p.paste),
            description: copy_text(&p.description),
            tags: copy_text(&p.tags),
            paste_password: copy_text(&p.paste_password),
            is_private: None,
        }
    }
}

/// The paste a change writes keeps every field of the request paste but its
/// id (none) and its date (the day of the request): the title, text,
/// description, tags and password written are the request's.
pub proof fn lemma_change_keeps_request(paste_id: Seq<char>, dto: PasteDTOView, date: Seq<char>)
    ensures
        update_paste_spec(paste_id, dto, date) matches Ok((b, p)) ==> {
            &&& p.user_id == dto.paste.user_id
            &&& p.username == dto.paste.username
            &&& p.title == dto.paste.title
            &&& p.paste == dto.paste.paste
            &&& p.description == dto.paste.description
            &&& p.tags == dto.paste.tags
            &&& p.paste_password == dto.paste.paste_password
            &&& p.is_private == dto.paste.is_private
            &&& p.id is None
            &&& p.created_at == Some(date)
        },
{
}

/// Reply once the store was asked to change the paste: whether it found one.
pub fn update_paste_reply(changed: bool) -> (res: Result<String, ApiError>)
    ensures
        text_reply_view(res) == if changed {
            Ok::<Seq<char>, ApiErrorView>("Paste updated successfully."@)
        } else {
            Err(api_error(Status::NotFound, "Paste not found."@))
        },
{
    if changed {
        text_ok("Paste updated successfully.")
    } else {
        refuse(Status::NotFound, "Paste not found.")
    }
}

/// Reply to a tag search: the pastes, or 404 `No results.`.
pub fn search_paste_reply(res: Result<Vec<Paste>, ()>) -> (reply: Result<Vec<Paste>, ApiError>)
    ensures
        match res {
            Ok(v) => reply matches Ok(w) && w == v,
            Err(()) => reply matches Err(e) && e@ == api_error(Status::NotFound, "No results."@),
        },
{
    match res {
        Ok(v) => Ok(v),
        Err(()) => refuse(Status::NotFound, "No results."),
    }
}

} // verus!
