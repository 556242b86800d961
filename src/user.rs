//! Users as this core sees them, and the payloads that carry credentials.
use vstd::prelude::*;
use vstd::string::StringExecFns;
use crate::errors::{ServiceError, STATUS_BAD_REQUEST};
use crate::text::{lower_of, lowercase};

verus! {

/// A stored user record.
#[derive(Debug)]
pub struct UserRow {
    pub id: i32,
    pub name: String,
    pub email: String,
    /// PHC string of the password's hash.
    pub password: String,
}

/// The public fields of a user.
#[derive(Debug)]
pub struct UserDto {
    pub id: i32,
    pub name: String,
    pub email: String,
}

impl UserDto {
    /// The public fields of a stored user; the password hash is left out.
    pub fn from_row(user: &UserRow) -> (r: UserDto)
        ensures
            r == public_fields(*user),
    {
        UserDto { id: user.id, name: user.name.clone(), email: user.email.clone() }
    }
}

/// The public fields of a stored user.
pub open spec fn public_fields(user: UserRow) -> UserDto {
    UserDto { id: user.id, name: user.name, email: user.email }
}

impl From<UserRow> for UserDto {
    fn from(user: UserRow) -> (r: UserDto) {
        UserDto { id: user.id, name: user.name, email: user.email }
    }
}

impl<'a> From<&'a UserRow> for UserDto {
    fn from(user: &'a UserRow) -> (r: UserDto) {
        UserDto::from_row(user)
    }
}

impl<'a> vstd::std_specs::convert::FromSpecImpl<&'a UserRow> for UserDto {
    open spec fn obeys_from_spec() -> bool {
        true
    }

    open spec fn from_spec(user: &'a UserRow) -> UserDto {
        public_fields(*user)
    }
}

impl vstd::std_specs::convert::FromSpecImpl<UserRow> for UserDto {
    open spec fn obeys_from_spec() -> bool {
        true
    }

    open spec fn from_spec(user: UserRow) -> UserDto {
        public_fields(user)
    }
}

/// Whether the e-mail validator accepts a string.
pub uninterp spec fn email_accepted(s: Seq<char>) -> bool;

/// Relies on validator's ValidateEmail::validate_email for `&str`; an empty
/// string, or one without '@', is refused.
#[verifier::external_body]
fn check_email(s: &str) -> (r: bool)
    ensures
        r == email_accepted(s@),
        (s@.len() == 0 || !s@.contains('@')) ==> !r,
{
    validator::ValidateEmail::validate_email(&s)
}

/// A rule that one field of a payload breaks.
#[derive(Debug)]
pub struct FieldError {
    pub field: String,
    pub message: String,
}

impl FieldError {
    pub fn new(field: &str, message: &str) -> (r: FieldError)
        ensures
            r.field@ == field@,
            r.message@ == message@,
    {
        FieldError { field: field.to_owned(), message: message.to_owned() }
    }

    pub open spec fn view(&self) -> (Seq<char>, Seq<char>) {
        (self.field@, self.message@)
    }
}

/// `field: message` for each broken rule, joined by `; `.
pub open spec fn describe_errors(errors: Seq<FieldError>) -> Seq<char>
    decreases errors.len(),
{
    if errors.len() == 0 {
        Seq::empty()
    } else {
        let init = describe_errors(errors.drop_last());
        let e = errors.last();
        (if errors.len() == 1 { init } else { init + "; "@ }) + e.field@ + ": "@ + e.message@
    }
}

/// The details reported for a payload that breaks rules.
pub fn describe(errors: &Vec<FieldError>) -> (r: String)
    ensures
        r@ == describe_errors(errors@),
{
    let mut out = String::new();
    let mut i: usize = 0;
    while i < errors.len()
        invariant
            i <= errors@.len(),
            out@ == describe_errors(errors@.subrange(0, i as int)),
        decreases errors@.len() - i,
    {
        let ghost before = errors@.subrange(0, i as int);
        assert(errors@.subrange(0, i + 1).drop_last() =~= before);
        if i > 0 {
            out.append("; ");
        }
        out.append(errors[i].field.as_str());
        out.append(": ");
        out.append(errors[i].message.as_str());
        i = i + 1;
    }
    assert(errors@.subrange(0, errors@.len() as int) =~= errors@);
    out
}

/// The error a payload that breaks rules is refused with.
pub fn validation_error(errors: &Vec<FieldError>) -> (r: ServiceError)
    ensures
        r.status == STATUS_BAD_REQUEST,
        r.message@ == "Validation error"@,
        r.details matches Some(d) && d@ == describe_errors(errors@),
{
    ServiceError::bad_request("Validation error").with_details(describe(errors))
}

pub open spec fn views_of(errors: Seq<FieldError>) -> Seq<(Seq<char>, Seq<char>)> {
    errors.map_values(|e: FieldError| e.view())
}

/// The rule broken when the check fails, or nothing.
pub open spec fn rule_if(
    broken: bool,
    field: Seq<char>,
    message: Seq<char>,
) -> Seq<(Seq<char>, Seq<char>)> {
    if broken {
        seq![(field, message)]
    } else {
        seq![]
    }
}

/// Credentials sent to log in. The e-mail is held in lowercase.
#[derive(Debug)]
pub struct LoginPayload {
    pub email: String,
    pub password: String,
}

impl LoginPayload {
    /// Builds the payload from what the client sent, lowercasing the e-mail.
    pub fn new(email: &str, password: String) -> (r: LoginPayload)
        ensures
            r.email@ == lower_of(email@),
            r.password == password,
    {
        LoginPayload { email: lowercase(email), password }
    }

    /// The rules this payload breaks, in field order; empty when it is valid.
    pub fn validate(&self) -> (r: Vec<FieldError>)
        ensures
            views_of(r@) == rule_if(!email_accepted(self.email@), "email"@, "Invalid email address"@)
                + rule_if(self.password@.len() < 1, "password"@, "Password cannot be empty"@),
    {
        let mut errors: Vec<FieldError> = Vec::new();
        if !check_email(self.email.as_str()) {
            errors.push(FieldError::new("email", "Invalid email address"));
        }
        if self.password.as_str().unicode_len() < 1 {
            errors.push(FieldError::new("password", "Password cannot be empty"));
        }
        proof {
            assert(views_of(errors@) =~= rule_if(!email_accepted(self.email@), "email"@, "Invalid email address"@)
                + rule_if(self.password@.len() < 1, "password"@, "Password cannot be empty"@));
        }
        errors
    }
}

/// A request to register a user. The e-mail is held in lowercase.
#[derive(Debug)]
pub struct CreateUser {
    pub name: String,
    pub email: String,
    pub password: String,
}

impl CreateUser {
    pub fn new(name: String, email: &str, password: String) -> (r: CreateUser)
        ensures
            r.name == name,
            r.email@ == lower_of(email@),
            r.password == password,
    {
        CreateUser { name, email: lowercase(email), password }
    }

    /// The rules this payload breaks, in field order; empty when it is valid.
    pub fn validate(&self) -> (r: Vec<FieldError>)
        ensures
            views_of(r@) == rule_if(self.name@.len() < 1, "name"@, "Name cannot be empty"@)
                + rule_if(!email_accepted(self.email@), "email"@, "Invalid email address"@)
                + rule_if(self.password@.len() < 8, "password"@, "Password must be at least 8 characters"@),
    {
        let mut errors: Vec<FieldError> = Vec::new();
        if self.name.as_str().unicode_len() < 1 {
            errors.push(FieldError::new("name", "Name cannot be empty"));
        }
        if !check_email(self.email.as_str()) {
            errors.push(FieldError::new("email", "Invalid email address"));
        }
        if self.password.as_str().unicode_len() < 8 {
            errors.push(FieldError::new("password", "Password must be at least 8 characters"));
        }
        proof {
            assert(views_of(errors@) =~= rule_if(self.name@.len() < 1, "name"@, "Name cannot be empty"@)
                + rule_if(!email_accepted(self.email@), "email"@, "Invalid email address"@)
                + rule_if(self.password@.len() < 8, "password"@, "Password must be at least 8 characters"@));
        }
        errors
    }
}

/// Claims of a signed identity token.
#[derive(Debug)]
pub struct Claim {
    pub exp: u64,
    pub iat: u64,
    pub email: String,
}

} // verus!
