//! Decisions of the user endpoints: registration and sign-in.

use vstd::prelude::*;
use vstd::string::StringExecFns;
use crate::auth::{
    bcrypt_verify, create_token, hash_secret, is_default_bcrypt_text, token_accepted, verify_token,
};
use crate::models::{copy_text, User, UserSignIn, UserSignInView, UserView};
use crate::object_id::hex_text;
use crate::response::{api_error, refuse, text_ok, text_reply_view, ApiError, ApiErrorView, Status};
use crate::validation::{render_errors, signin_errors, user_errors};

verus! {

/// The greeting of the service's root.
pub fn index() -> (res: String)
    ensures
        res@ == "Hello, World!"@,
{
    String::from_str("Hello, World!")
}

pub open spec fn signin_form_result(r: Result<UserSignIn, ApiError>) -> Result<
    UserSignInView,
    ApiErrorView,
> {
    match r {
        Ok(f) => Ok(f@),
        Err(e) => Err(e@),
    }
}

/// The form a sign-in looks the user up with, or the refusal: broken
/// field rules (500, with the report of the rules), then an empty password
/// (400).
pub open spec fn signin_check_spec(form: UserSignInView) -> Result<UserSignInView, ApiErrorView> {
    if signin_errors(form.email, form.passwd).len() > 0 {
        Err(
            api_error(
                Status::InternalServerError,
                render_errors(signin_errors(form.email, form.passwd)),
            ),
        )
    } else if form.passwd->0.len() == 0 {
        Err(api_error(Status::BadRequest, "Password is required."@))
    } else {
        Ok(UserSignInView { id: None, ..form })
    }
}

/// Checks a sign-in form and gives the form to look the user up with.
pub fn signin_check(user_data: &UserSignIn) -> (res: Result<UserSignIn, ApiError>)
    ensures
        signin_form_result(res) == signin_check_spec(user_data@),
{
    let form = UserSignIn {
        id: None,
        email: copy_text(&user_data.email),
        passwd: copy_text(&user_data.passwd),
    };
    match form.validate() {
        Ok(()) => {},
        Err(errs) => {
            return Err(ApiError { status: Status::InternalServerError, message: errs.to_message() });
        },
    }
    if form.passwd.as_ref().unwrap().as_str().is_empty() {
        return refuse(Status::BadRequest, "Password is required.");
    }
    Ok(form)
}

/// How a sign-in ends once the store was asked for the user.
pub enum SignInDecision {
    /// No user has the e-mail address.
    UnknownEmail,
    /// The password does not match the stored hash.
    WrongPassword,
    /// The stored user lacks a field the reply needs, or its hash cannot be read.
    Unreadable,
    /// The password matches: a token is issued for the user's id (as hex text).
    Granted { user_id: Seq<char>, username: Seq<char> },
}

/// How a sign-in ends for a stored user, given the outcome of checking
/// the password against the user's stored hash.
pub open spec fn decision_for_check(u: UserView, password_check: Result<bool, ()>) -> SignInDecision {
    match password_check {
        Err(()) => SignInDecision::Unreadable,
        Ok(false) => SignInDecision::WrongPassword,
        Ok(true) => match (u.id, u.username) {
            (Some(id), Some(name)) => SignInDecision::Granted {
                user_id: hex_text(id),
                username: name,
            },
            _ => SignInDecision::Unreadable,
        },
    }
}

/// How a sign-in with password `password` ends for the user the store found.
pub open spec fn signin_decision(password: Seq<char>, found: Option<UserView>) -> SignInDecision {
    match found {
        None => SignInDecision::UnknownEmail,
        Some(u) => match u.passwd {
            None => SignInDecision::Unreadable,
            Some(h) => decision_for_check(u, bcrypt_verify(password, h)),
        },
    }
}

/// The text sent back on a successful sign-in.
pub open spec fn signin_message(token: Seq<char>, user_id: Seq<char>, username: Seq<char>) -> Seq<
    char,
> {
    "token "@ + token + " user_id "@ + user_id + " username "@ + username
}

pub open spec fn opt_text_reply_view(o: Option<Result<String, ApiError>>) -> Option<
    Result<Seq<char>, ApiErrorView>,
> {
    match o {
        Some(r) => Some(text_reply_view(r)),
        None => None,
    }
}

/// The reply to a granted sign-in once a token was asked for: the message
/// with the token, the id and the name; none where no token came back or
/// the user has no name.
pub open spec fn signin_reply_spec(
    token: Option<Seq<char>>,
    user_id: Seq<char>,
    username: Option<Seq<char>>,
) -> Option<Result<Seq<char>, ApiErrorView>> {
    match (token, username) {
        (Some(t), Some(n)) => Some(Ok(signin_message(t, user_id, n))),
        _ => None,
    }
}

/// The reply to a granted sign-in for the user with id text `user_id` and
/// name `username`, given what the token issuer returned (see
/// `signin_reply_spec`).
pub fn signin_reply(token: Option<String>, user_id: String, username: &Option<String>) -> (res:
    Option<Result<String, ApiError>>)
    ensures
        opt_text_reply_view(res) == signin_reply_spec(
            token.deep_view(),
            user_id@,
            username.deep_view(),
        ),
{
    let token = match token {
        Some(t) => t,
        None => {
            return None;
        },
    };
    let name = match username {
        Some(n) => n,
        None => {
            return None;
        },
    };
    let mut msg = String::from_str("token ");
    msg.append(token.as_str());
    msg.append(" user_id ");
    msg.append(user_id.as_str());
    msg.append(" username ");
    msg.append(name.as_str());
    assert(msg@ =~= signin_message(token@, user_id@, name@));
    Some(Ok(msg))
}

/// The reply to a granted sign-in for a user: what `signin_reply` gives
/// for the user's id text and name and for some outcome of issuing a
/// token, where any token issued is a `$2b$12$` bcrypt text that verifies
/// for the user's id.
pub open spec fn granted_reply(
    res: Option<Result<String, ApiError>>,
    user_id: Seq<char>,
    username: Seq<char>,
) -> bool {
    exists|token: Option<Seq<char>>|
        (token matches Some(t) ==> token_accepted(user_id, t) && is_default_bcrypt_text(t))
            && opt_text_reply_view(res) == signin_reply_spec(token, user_id, Some(username))
}

pub open spec fn opt_user_view(o: Option<User>) -> Option<UserView> {
    match o {
        Some(u) => Some(u@),
        None => None,
    }
}

/// The reply to a sign-in for a stored user once its password was checked
/// against the stored hash (`password_check`). `None` where no reply can be
/// made: the check failed on an unreadable hash, the user lacks its id or
/// name, or no random salt could be had for the token.
pub fn signin_checked(user: &User, password_check: Result<bool, ()>) -> (res: Option<
    Result<String, ApiError>,
>)
    ensures
        decision_for_check(user@, password_check) is WrongPassword ==> (res matches Some(r)
            && text_reply_view(r) == Err::<Seq<char>, ApiErrorView>(
            api_error(Status::UnprocessableEntity, "Invalid password."@),
        )),
        decision_for_check(user@, password_check) is Unreadable ==> res is None,
        decision_for_check(user@, password_check) matches SignInDecision::Granted {
            user_id,
            username,
        } ==> granted_reply(res, user_id, username),
{
    match password_check {
        Err(()) => None,
        Ok(false) => Some(refuse(Status::UnprocessableEntity, "Invalid password.")),
        Ok(true) => {
            let id = match user.id {
                Some(i) => i,
                None => {
                    return None;
                },
            };
            let user_id = id.to_hex();
            let token = create_token(user_id.as_str());
            let ghost tok = token.deep_view();
            let ghost uid = user_id@;
            let res = signin_reply(token, user_id, &user.username);
            proof {
                if user@.username is Some {
                    assert(granted_reply(res, uid, user@.username->0));
                }
            }
            res
        },
    }
}

/// The reply to a sign-in once the store was asked for the user with the
/// form's e-mail address. `None` where no reply can be made: the stored
/// user lacks its password, id or name, its password hash cannot be read,
/// or no random salt could be had for the token.
pub fn signin_result(form: &UserSignIn, found: Option<User>) -> (res: Option<Result<String, ApiError>>)
    requires
        form.passwd is Some,
    ensures
        signin_decision(form@.passwd->0, opt_user_view(found)) is UnknownEmail ==> (res matches Some(
            r,
        ) && text_reply_view(r) == Err::<Seq<char>, ApiErrorView>(
            api_error(Status::UnprocessableEntity, "Invalid email."@),
        )),
        signin_decision(form@.passwd->0, opt_user_view(found)) is WrongPassword ==> (res matches Some(
            r,
        ) && text_reply_view(r) == Err::<Seq<char>, ApiErrorView>(
            api_error(Status::UnprocessableEntity, "Invalid password."@),
        )),
        signin_decision(form@.passwd->0, opt_user_view(found)) is Unreadable ==> res is None,
        signin_decision(form@.passwd->0, opt_user_view(found)) matches SignInDecision::Granted {
            user_id,
            username,
        } ==> granted_reply(res, user_id, username),
{
    let user = match found {
        None => {
            return Some(refuse(Status::UnprocessableEntity, "Invalid email."));
        },
        Some(u) => u,
    };
    let stored = match &user.passwd {
        Some(h) => h,
        None => {
            return None;
        },
    };
    let given = form.passwd.as_ref().unwrap();
    let check = verify_token(given, stored);
    signin_checked(&user, check)
}

pub open spec fn user_result_view(r: Result<User, ApiError>) -> Result<UserView, ApiErrorView> {
    match r {
        Ok(u) => Ok(u@),
        Err(e) => Err(e@),
    }
}

/// The user to store for a registration whose password hashed to `hash`
/// (`None` where hashing failed), or the refusal, checked in order: an
/// empty password (400), a failed hash (500), broken field rules of the
/// form with its plain password (400, with the report of the rules).
pub open spec fn create_user_spec(new_user: UserView, hash: Option<Seq<char>>) -> Result<
    UserView,
    ApiErrorView,
> {
    if new_user.passwd->0.len() == 0 {
        Err(api_error(Status::BadRequest, "Password is required."@))
    } else {
        match hash {
            None => Err(api_error(Status::InternalServerError, "An error ocurred."@)),
            Some(h) => {
                let data = UserView { id: None, ..new_user };
                if user_errors(data).len() > 0 {
                    Err(api_error(Status::BadRequest, render_errors(user_errors(data))))
                } else {
                    Ok(UserView { id: None, passwd: Some(h), ..new_user })
                }
            },
        }
    }
}

/// The user to store for a registration whose password hashed to `hash`
/// (see `create_user_spec`).
pub fn user_record(new_user: &User, hash: Option<String>) -> (res: Result<User, ApiError>)
    requires
        new_user.passwd is Some,
    ensures
        user_result_view(res) == create_user_spec(new_user@, hash.deep_view()),
{
    if new_user.passwd.as_ref().unwrap().as_str().is_empty() {
        return refuse(Status::BadRequest, "Password is required.");
    }
    let hash = match hash {
        Some(h) => h,
        None => {
            return refuse(Status::InternalServerError, "An error ocurred.");
        },
    };
    let data = User {
        id: None,
        username: copy_text(&new_user.username),
        email: copy_text(&new_user.email),
        passwd: copy_text(&new_user.passwd),
    };
    match data.validate() {
        Ok(()) => {},
        Err(errs) => {
            return Err(ApiError { status: Status::BadRequest, message: errs.to_message() });
        },
    }
    Ok(User { id: None, username: data.username, email: data.email, passwd: Some(hash) })
}

/// The user to store for a registration: its password replaced by a bcrypt
/// hash that verifies against it (see `create_user_spec`, for whatever
/// hash the random salt gives).
pub fn create_user(new_user: &User) -> (res: Result<User, ApiError>)
    requires
        new_user.passwd is Some,
    ensures
        exists|hash: Option<Seq<char>>|
            (hash matches Some(h) ==> token_accepted(new_user@.passwd->0, h)
                && is_default_bcrypt_text(h)) && user_result_view(res) == create_user_spec(
                new_user@,
                hash,
            ),
{
    let p = new_user.passwd.as_ref().unwrap();
    if p.as_str().is_empty() {
        let res = user_record(new_user, None);
        assert(user_result_view(res) == create_user_spec(new_user@, None));
        return res;
    }
    let hash = hash_secret(p.as_str());
    let ghost h = hash.deep_view();
    let res = user_record(new_user, hash);
    assert(user_result_view(res) == create_user_spec(new_user@, h));
    res
}

/// A user stored by registration, once the store gives it an id, signs in
/// with the password it registered with: the sign-in is granted for its id
/// and name.
pub proof fn lemma_registered_user_signs_in(new_user: UserView, hash: Seq<char>, id: Seq<u8>)
    requires
        token_accepted(new_user.passwd->0, hash),
        create_user_spec(new_user, Some(hash)) is Ok,
    ensures
        create_user_spec(new_user, Some(hash)) matches Ok(stored) && signin_decision(
            new_user.passwd->0,
            Some(UserView { id: Some(id), ..stored }),
        ) == (SignInDecision::Granted { user_id: hex_text(id), username: stored.username->0 }),
{
}

/// A sign-in is granted only with a password that verifies against the
/// stored hash.
pub proof fn lemma_granted_needs_password(password: Seq<char>, found: Option<UserView>)
    ensures
        signin_decision(password, found) is Granted ==> (found matches Some(u) && u.passwd matches Some(
            h,
        ) && token_accepted(password, h)),
{
}

/// The step of a registration after the store was asked for the e-mail
/// address: a taken address is refused with 400 `Email already exists.`
/// and nothing is stored; otherwise (`Ok`) the user is to be stored.
pub fn registration_step(email_taken: bool) -> (res: Result<(), ApiError>)
    ensures
        email_taken ==> (res matches Err(e) && e@ == api_error(
            Status::BadRequest,
            "Email already exists."@,
        )),
        !email_taken ==> res is Ok,
{
    if email_taken {
        refuse(Status::BadRequest, "Email already exists.")
    } else {
        Ok(())
    }
}

/// Reply to a registration once the store was asked: whether the e-mail
/// address was already taken (then nothing was stored), and whether storing
/// succeeded.
pub fn create_user_reply(email_taken: bool, stored: bool) -> (res: Result<String, ApiError>)
    ensures
        text_reply_view(res) == if email_taken {
            Err(api_error(Status::BadRequest, "Email already exists."@))
        } else if !stored {
            Err(api_error(Status::BadRequest, "An error occured while creating the user"@))
        } else {
            Ok::<Seq<char>, ApiErrorView>("User created."@)
        },
{
    if email_taken {
        refuse(Status::BadRequest, "Email already exists.")
    } else if !stored {
        refuse(Status::BadRequest, "An error occured while creating the user")
    } else {
        text_ok("User created.")
    }
}

} // verus!
