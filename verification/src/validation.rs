//! Field rules of the request bodies, and the report of the fields that
//! break them.

use vstd::prelude::*;
use vstd::string::{StrSliceExecFns, StringExecFns};
use crate::email::{check_email_address, is_email_address};
use crate::models::{Auth, Paste, PasswordDto, User, UserSignIn};

verus! {

/// The kind of rule a field broke.
#[derive(Clone, Copy, Debug, PartialEq, Eq, Structural)]
pub enum Rule {
    /// The field is absent.
    Required,
    /// The field's text has too few or too many characters.
    Length,
    /// The field's text does not have the required shape.
    Pattern,
}

/// One broken rule: the field, the rule and the text that describes it.
#[derive(Debug)]
pub struct FieldError {
    pub field: String,
    pub rule: Rule,
    pub message: String,
}

pub struct FieldErrorView {
    pub field: Seq<char>,
    pub rule: Rule,
    pub message: Seq<char>,
}

impl View for FieldError {
    type V = FieldErrorView;

    open spec fn view(&self) -> FieldErrorView {
        FieldErrorView { field: self.field@, rule: self.rule, message: self.message@ }
    }
}

/// The rules a request body broke, in the order of its fields.
#[derive(Debug)]
pub struct ValidationErrors {
    pub errors: Vec<FieldError>,
}

pub open spec fn errors_view(v: Seq<FieldError>) -> Seq<FieldErrorView> {
    v.map_values(|e: FieldError| e@)
}

impl View for ValidationErrors {
    type V = Seq<FieldErrorView>;

    open spec fn view(&self) -> Seq<FieldErrorView> {
        errors_view(self.errors@)
    }
}

pub open spec fn field_error(field: Seq<char>, rule: Rule, message: Seq<char>) -> FieldErrorView {
    FieldErrorView { field, rule, message }
}

/// Text of a broken `required` rule that has no message of its own.
pub open spec fn required_text() -> Seq<char> {
    "Validation error: required [{\"value\": Null}]"@
}

/// Text of a broken "at least one character" rule that has no message of its own.
pub open spec fn empty_text() -> Seq<char> {
    "Validation error: length [{\"min\": Number(1), \"value\": String(\"\")}]"@
}

/// Errors of a field that is required and whose text must have between
/// `min` and `max` characters: `required` where it is absent, the length
/// rule where its length is out of range, nothing else.
pub open spec fn required_length_errors(
    field: Seq<char>,
    value: Option<Seq<char>>,
    min: nat,
    max: Option<nat>,
    length_text: Seq<char>,
) -> Seq<FieldErrorView> {
    match value {
        None => seq![field_error(field, Rule::Required, required_text())],
        Some(v) => if v.len() < min || (max matches Some(m) && v.len() > m) {
            seq![field_error(field, Rule::Length, length_text)]
        } else {
            seq![]
        },
    }
}

/// Errors of a field that is only required.
pub open spec fn required_errors(field: Seq<char>, value: Option<Seq<char>>) -> Seq<FieldErrorView> {
    match value {
        None => seq![field_error(field, Rule::Required, required_text())],
        Some(_) => seq![],
    }
}

/// Errors of a required e-mail field: `required` where it is absent; where
/// present, the shape rule if it is not an e-mail address, then the length
/// rule if it has more than 100 characters.
pub open spec fn email_errors(value: Option<Seq<char>>) -> Seq<FieldErrorView> {
    match value {
        None => seq![field_error("email"@, Rule::Required, required_text())],
        Some(v) => (if is_email_address(v) {
            Seq::empty()
        } else {
            seq![field_error("email"@, Rule::Pattern, "Please enter a valid email address."@)]
        }) + (if v.len() > 100 {
            seq![field_error("email"@, Rule::Length, "Must be less than 100 characters."@)]
        } else {
            Seq::empty()
        }),
    }
}

/// Errors of a paste: author id, author name, title (at most 90 characters)
/// and text are required and non-empty.
pub open spec fn paste_errors(p: crate::models::PasteView) -> Seq<FieldErrorView> {
    required_length_errors("user_id"@, p.user_id, 1, None, empty_text())
        + required_length_errors("username"@, p.username, 1, None, empty_text())
        + required_length_errors("title"@, p.title, 1, Some(90), "Must be less than 90 characters."@)
        + required_length_errors("paste"@, p.paste, 1, None, "Is required."@)
}

/// Errors of credentials: the token is required and non-empty.
pub open spec fn auth_errors(token: Option<Seq<char>>) -> Seq<FieldErrorView> {
    required_length_errors("token"@, token, 1, None, "Is required to auth."@)
}

/// Errors of a sign-in form: a well-formed e-mail address and a password.
pub open spec fn signin_errors(email: Option<Seq<char>>, passwd: Option<Seq<char>>) -> Seq<
    FieldErrorView,
> {
    email_errors(email) + required_errors("passwd"@, passwd)
}

/// Errors of a registration: a name, a well-formed e-mail address and a password.
pub open spec fn user_errors(u: crate::models::UserView) -> Seq<FieldErrorView> {
    required_errors("username"@, u.username) + email_errors(u.email) + required_errors(
        "passwd"@,
        u.passwd,
    )
}

/// Whether an optional text is present and has at least one character.
pub open spec fn present_nonempty(o: Option<Seq<char>>) -> bool {
    o is Some && o->0.len() >= 1
}

/// A paste breaks no rule exactly when its author id, author name and text
/// are present and non-empty and its title has 1 to 90 characters; its text
/// may be of any length, and its other fields are free.
pub proof fn lemma_paste_rules(p: crate::models::PasteView)
    ensures
        paste_errors(p).len() == 0 <==> (present_nonempty(p.user_id) && present_nonempty(
            p.username,
        ) && present_nonempty(p.paste) && p.title is Some && 1 <= p.title->0.len() <= 90),
{
}

/// Credentials break no rule exactly when the token is present and non-empty.
pub proof fn lemma_auth_rules(token: Option<Seq<char>>)
    ensures
        auth_errors(token).len() == 0 <==> present_nonempty(token),
{
}

/// An e-mail field breaks no rule exactly when it is present, has the shape
/// of an address and has at most 100 characters; an absent one breaks only
/// `required`.
pub proof fn lemma_email_rules(value: Option<Seq<char>>)
    ensures
        email_errors(value).len() == 0 <==> (value is Some && is_email_address(value->0)
            && value->0.len() <= 100),
        value is None ==> email_errors(value) == seq![field_error("email"@, Rule::Required, required_text())],
{
}

/// A sign-in form breaks no rule exactly when its address is present,
/// well formed and at most 100 characters long, and its password is present
/// (an empty password breaks no field rule).
pub proof fn lemma_signin_rules(email: Option<Seq<char>>, passwd: Option<Seq<char>>)
    ensures
        signin_errors(email, passwd).len() == 0 <==> (email is Some && is_email_address(email->0)
            && email->0.len() <= 100 && passwd is Some),
{
    lemma_email_rules(email);
}

/// A registration breaks no rule exactly when its name and password are
/// present and its address is present, well formed and at most 100
/// characters long.
pub proof fn lemma_user_rules(u: crate::models::UserView)
    ensures
        user_errors(u).len() == 0 <==> (u.username is Some && u.passwd is Some && u.email is Some
            && is_email_address(u.email->0) && u.email->0.len() <= 100),
{
    lemma_email_rules(u.email);
}

/// The report of broken rules: for each field in turn, `field: ` and the
/// texts of its broken rules joined by `, `; one line per field.
pub open spec fn render_errors(errs: Seq<FieldErrorView>) -> Seq<char>
    decreases errs.len(),
{
    if errs.len() == 0 {
        Seq::empty()
    } else {
        let prev = errs.drop_last();
        let e = errs.last();
        if prev.len() == 0 {
            e.field + ": "@ + e.message
        } else if prev.last().field == e.field {
            render_errors(prev) + ", "@ + e.message
        } else {
            render_errors(prev) + "\n"@ + e.field + ": "@ + e.message
        }
    }
}

fn push_error(errors: &mut Vec<FieldError>, field: &str, rule: Rule, message: &str)
    ensures
        errors_view(final(errors)@) == errors_view(old(errors)@).push(
            field_error(field@, rule, message@),
        ),
{
    errors.push(FieldError { field: String::from_str(field), rule, message: String::from_str(message) });
    assert(errors_view(final(errors)@) =~= errors_view(old(errors)@).push(
        field_error(field@, rule, message@),
    ));
}

fn text_length(s: &String) -> (res: usize)
    ensures
        res == s@.len(),
{
    s.as_str().unicode_len()
}

fn check_required_length(
    errors: &mut Vec<FieldError>,
    field: &str,
    value: &Option<String>,
    min: usize,
    max: Option<usize>,
    length_text: &str,
)
    ensures
        errors_view(final(errors)@) == errors_view(old(errors)@) + required_length_errors(
            field@,
            value.deep_view(),
            min as nat,
            match max {
                Some(m) => Some(m as nat),
                None => None,
            },
            length_text@,
        ),
{
    let ghost before = errors_view(errors@);
    match value {
        None => {
            push_error(errors, field, Rule::Required, "Validation error: required [{\"value\": Null}]");
        },
        Some(v) => {
            let n = text_length(v);
            let too_long = match max {
                Some(m) => n > m,
                None => false,
            };
            if n < min || too_long {
                push_error(errors, field, Rule::Length, length_text);
            }
        },
    }
    assert(errors_view(errors@) =~= before + required_length_errors(
        field@,
        value.deep_view(),
        min as nat,
        match max {
            Some(m) => Some(m as nat),
            None => None,
        },
        length_text@,
    ));
}

fn check_required(errors: &mut Vec<FieldError>, field: &str, value: &Option<String>)
    ensures
        errors_view(final(errors)@) == errors_view(old(errors)@) + required_errors(
            field@,
            value.deep_view(),
        ),
{
    let ghost before = errors_view(errors@);
    if value.is_none() {
        push_error(errors, field, Rule::Required, "Validation error: required [{\"value\": Null}]");
    }
    assert(errors_view(errors@) =~= before + required_errors(field@, value.deep_view()));
}

fn check_email(errors: &mut Vec<FieldError>, value: &Option<String>)
    ensures
        errors_view(final(errors)@) == errors_view(old(errors)@) + email_errors(value.deep_view()),
{
    let ghost before = errors_view(errors@);
    match value {
        None => {
            push_error(errors, "email", Rule::Required, "Validation error: required [{\"value\": Null}]");
        },
        Some(v) => {
            if !check_email_address(v.as_str()) {
                push_error(errors, "email", Rule::Pattern, "Please enter a valid email address.");
            }
            if text_length(v) > 100 {
                push_error(errors, "email", Rule::Length, "Must be less than 100 characters.");
            }
        },
    }
    assert(errors_view(errors@) =~= before + email_errors(value.deep_view()));
}

fn into_result(errors: Vec<FieldError>) -> (res: Result<(), ValidationErrors>)
    ensures
        match res {
            Ok(()) => errors_view(errors@).len() == 0,
            Err(e) => e@ == errors_view(errors@) && e@.len() > 0,
        },
{
    if errors.len() == 0 {
        Ok(())
    } else {
        Err(ValidationErrors { errors })
    }
}

impl Paste {
    /// Checks the paste's rules: author id, author name, title (1 to 90
    /// characters) and text must be present and non-empty.
    pub fn validate(&self) -> (res: Result<(), ValidationErrors>)
        ensures
            match res {
                Ok(()) => paste_errors(self@).len() == 0,
                Err(e) => e@ == paste_errors(self@) && e@.len() > 0,
            },
    {
        let mut errors: Vec<FieldError> = Vec::new();
        assert(errors_view(errors@) =~= Seq::empty());
        check_required_length(
            &mut errors,
            "user_id",
            &self.user_id,
            1,
            None,
            "Validation error: length [{\"min\": Number(1), \"value\": String(\"\")}]",
        );
        check_required_length(
            &mut errors,
            "username",
            &self.username,
            1,
            None,
            "Validation error: length [{\"min\": Number(1), \"value\": String(\"\")}]",
        );
        check_required_length(
            &mut errors,
            "title",
            &self.title,
            1,
            Some(90),
            "Must be less than 90 characters.",
        );
        check_required_length(&mut errors, "paste", &self.paste, 1, None, "Is required.");
        assert(errors_view(errors@) =~= paste_errors(self@));
        into_result(errors)
    }
}

impl Auth {
    /// Checks the credentials' rule: the token must be present and non-empty.
    pub fn validate(&self) -> (res: Result<(), ValidationErrors>)
        ensures
            match res {
                Ok(()) => auth_errors(self.token.deep_view()).len() == 0,
                Err(e) => e@ == auth_errors(self.token.deep_view()) && e@.len() > 0,
            },
    {
        let mut errors: Vec<FieldError> = Vec::new();
        assert(errors_view(errors@) =~= Seq::empty());
        check_required_length(&mut errors, "token", &self.token, 1, None, "Is required to auth.");
        assert(errors_view(errors@) =~= auth_errors(self.token.deep_view()));
        into_result(errors)
    }
}

impl UserSignIn {
    /// Checks the form's rules: a well-formed e-mail address of at most 100
    /// characters, and a password.
    pub fn validate(&self) -> (res: Result<(), ValidationErrors>)
        ensures
            match res {
                Ok(()) => signin_errors(self.email.deep_view(), self.passwd.deep_view()).len()
                    == 0,
                Err(e) => e@ == signin_errors(self.email.deep_view(), self.passwd.deep_view())
                    && e@.len() > 0,
            },
    {
        let mut errors: Vec<FieldError> = Vec::new();
        assert(errors_view(errors@) =~= Seq::empty());
        check_email(&mut errors, &self.email);
        check_required(&mut errors, "passwd", &self.passwd);
        assert(errors_view(errors@) =~= signin_errors(
            self.email.deep_view(),
            self.passwd.deep_view(),
        ));
        into_result(errors)
    }
}

impl User {
    /// Checks a registration's rules: a name, a well-formed e-mail address
    /// of at most 100 characters, and a password.
    pub fn validate(&self) -> (res: Result<(), ValidationErrors>)
        ensures
            match res {
                Ok(()) => user_errors(self@).len() == 0,
                Err(e) => e@ == user_errors(self@) && e@.len() > 0,
            },
    {
        let mut errors: Vec<FieldError> = Vec::new();
        assert(errors_view(errors@) =~= Seq::empty());
        check_required(&mut errors, "username", &self.username);
        check_email(&mut errors, &self.email);
        check_required(&mut errors, "passwd", &self.passwd);
        assert(errors_view(errors@) =~= user_errors(self@));
        into_result(errors)
    }
}

impl PasswordDto {
    /// A password body has no rules of its own: it always passes.
    pub fn validate(&self) -> (res: Result<(), ValidationErrors>)
        ensures
            res is Ok,
    {
        Ok(())
    }
}

impl ValidationErrors {
    /// The report of the broken rules: one line per field, `field: ` and
    /// the texts of its broken rules joined by `, `.
    pub fn to_message(&self) -> (res: String)
        ensures
            res@ == render_errors(self@),
    {
        let mut res = String::new();
        let n = self.errors.len();
        let ghost errs = self@;
        let mut i: usize = 0;
        assert(errs.take(0) =~= Seq::<FieldErrorView>::empty());
        while i < n
            invariant
                n == self.errors@.len(),
                errs == self@,
                errs.len() == n,
                i <= n,
                res@ == render_errors(errs.take(i as int)),
            decreases n - i,
        {
            let e = &self.errors[i];
            assert(errs[i as int] == e@);
            assert(errs.take(i + 1).drop_last() =~= errs.take(i as int));
            if i == 0 {
                res.append(e.field.as_str());
                res.append(": ");
                res.append(e.message.as_str());
            } else if self.errors[i - 1].field == e.field {
                assert(errs[i - 1] == self.errors[i - 1]@);
                res.append(", ");
                res.append(e.message.as_str());
            } else {
                assert(errs[i - 1] == self.errors[i - 1]@);
                res.append("\n");
                res.append(e.field.as_str());
                res.append(": ");
                res.append(e.message.as_str());
            }
            assert(res@ =~= render_errors(errs.take(i + 1)));
            i = i + 1;
        }
        assert(errs.take(n as int) =~= errs);
        res
    }
}

} // verus!
