//! Login, and the authentication of requests that carry a bearer token.
use vstd::prelude::*;
use crate::credential::{verify_outcome, verify_password};
use crate::errors::{ServiceError, ServiceResult, STATUS_INTERNAL, STATUS_UNAUTHORIZED};
use crate::session::{ResolveError, SessionRow, SessionService, SessionUserDTO, StoreError, opened};
use crate::time::{expiry_fits, now, Timestamp};
use crate::token::{generate_token, is_version4, parse_uuid, uuid_parsed};
use crate::token::{canonical_text, digit_index, is_hyphen_position, lower_hex_char, nibble};
use crate::user::{LoginPayload, UserDto, UserRow};
use vstd::arithmetic::power::{lemma_pow_positive, pow};
use vstd::utf8::{encode_utf8, is_ascii_chars, is_ascii_chars_encode_utf8};

verus! {

/// The identity a request was accepted with, for the length of that request.
#[derive(Debug)]
pub struct AuthSession {
    pub user: UserDto,
    pub session_token: String,
}

/// The user, if any, a request runs on behalf of.
#[derive(Debug)]
pub struct AuthState {
    pub user: Option<UserDto>,
}

/// Why a request was refused. Every refusal is reported with the same
/// status; only the message differs.
#[derive(Clone, Copy, Debug, PartialEq, Eq, Structural)]
pub enum AuthRejection {
    MissingHeader,
    MalformedHeader,
    InvalidScheme,
    UnknownSession,
    SessionNotValid,
    NoLinkedUser,
}

pub open spec fn rejection_message(r: AuthRejection) -> Seq<char> {
    match r {
        AuthRejection::MissingHeader => "missing header"@,
        AuthRejection::MalformedHeader => "malformed header"@,
        AuthRejection::InvalidScheme => "invalid scheme"@,
        AuthRejection::UnknownSession => "invalid session"@,
        AuthRejection::SessionNotValid => "session not valid"@,
        AuthRejection::NoLinkedUser => "no linked user"@,
    }
}

impl AuthRejection {
    pub fn message(&self) -> (r: &'static str)
        ensures
            r@ == rejection_message(*self),
    {
        match self {
            AuthRejection::MissingHeader => "missing header",
            AuthRejection::MalformedHeader => "malformed header",
            AuthRejection::InvalidScheme => "invalid scheme",
            AuthRejection::UnknownSession => "invalid session",
            AuthRejection::SessionNotValid => "session not valid",
            AuthRejection::NoLinkedUser => "no linked user",
        }
    }

    pub fn to_error(&self) -> (r: ServiceError)
        ensures
            r.status == STATUS_UNAUTHORIZED,
            r.message@ == rejection_message(*self),
            r.details is None,
    {
        ServiceError::unauthorized(self.message())
    }
}

/// A byte that may stand in a header value read as text: visible ASCII or tab.
pub open spec fn is_visible_ascii(b: u8) -> bool {
    b == 9 || (32 <= b && b < 127)
}

/// The scheme prefix `Bearer ` as bytes.
pub open spec fn bearer_prefix() -> Seq<u8> {
    seq![66u8, 101u8, 97u8, 114u8, 101u8, 114u8, 32u8]
}

/// The token an `Authorization` header value names, or why it names none.
pub open spec fn header_token(header: Option<Seq<u8>>) -> Result<u128, AuthRejection> {
    match header {
        None => Err(AuthRejection::MissingHeader),
        Some(h) => if !(forall|i: int| 0 <= i < h.len() ==> is_visible_ascii(#[trigger] h[i])) {
            Err(AuthRejection::MalformedHeader)
        } else if !(h.len() >= 7 && h.subrange(0, 7) == bearer_prefix()) {
            Err(AuthRejection::InvalidScheme)
        } else {
            match uuid_parsed(h.subrange(7, h.len() as int)) {
                Some(t) => Ok(t),
                None => Err(AuthRejection::UnknownSession),
            }
        },
    }
}

/// Reads the session token from the raw `Authorization` header value:
/// the header must be present, readable as text, and use the `Bearer`
/// scheme; the prefix is stripped, not searched for.
pub fn bearer_token(header: Option<&[u8]>) -> (r: Result<u128, AuthRejection>)
    ensures
        header is None ==> r == header_token(None),
        header matches Some(h) ==> r == header_token(Some(h@)),
{
    match header {
        None => Err(AuthRejection::MissingHeader),
        Some(h) => token_in_value(h),
    }
}

fn token_in_value(h: &[u8]) -> (r: Result<u128, AuthRejection>)
    ensures
        r == header_token(Some(h@)),
{
    let n = h.len();
    let mut i: usize = 0;
    while i < n
        invariant
            n == h@.len(),
            i <= n,
            forall|j: int| 0 <= j < i ==> is_visible_ascii(#[trigger] h@[j]),
        decreases n - i,
    {
        let b = h[i];
        if !(b == 9 || (32 <= b && b < 127)) {
            assert(!is_visible_ascii(h@[i as int]));
            return Err(AuthRejection::MalformedHeader);
        }
        i = i + 1;
    }
    let prefix: [u8; 7] = [66u8, 101u8, 97u8, 114u8, 101u8, 114u8, 32u8];
    if n < 7 {
        return Err(AuthRejection::InvalidScheme);
    }
    let mut k: usize = 0;
    while k < 7
        invariant
            n == h@.len(),
            n >= 7,
            k <= 7,
            prefix@ == bearer_prefix(),
            forall|j: int| 0 <= j < n ==> is_visible_ascii(#[trigger] h@[j]),
            forall|j: int| 0 <= j < k ==> h@[j] == bearer_prefix()[j],
        decreases 7 - k,
    {
        if h[k] != prefix[k] {
            assert(h@.subrange(0, 7)[k as int] != bearer_prefix()[k as int]);
            return Err(AuthRejection::InvalidScheme);
        }
        k = k + 1;
    }
    assert(h@.subrange(0, 7) =~= bearer_prefix());
    let (_, rest) = h.split_at(7);
    assert(rest@ =~= h@.subrange(7, n as int));
    match parse_uuid(rest) {
        Some(t) => Ok(t),
        None => Err(AuthRejection::UnknownSession),
    }
}

/// Each character of a token's canonical text is a visible ASCII character.
proof fn lemma_canonical_text_visible(t: u128)
    ensures
        is_ascii_chars(canonical_text(t)),
        forall|i: int|
            0 <= i < 36 ==> is_visible_ascii(#[trigger] canonical_text(t)[i] as u8),
{
    let c = canonical_text(t);
    assert forall|i: int| 0 <= i < 36 implies '\0' <= #[trigger] c[i] <= '\u{7f}'
        && is_visible_ascii(c[i] as u8) by {
        if !is_hyphen_position(i) {
            let k = digit_index(i);
            lemma_pow_positive(16, (31 - k) as nat);
            let n = nibble(t, k);
            assert(0 <= n < 16);
            let digits = seq!['0', '1', '2', '3', '4', '5', '6', '7', '8', '9', 'a', 'b', 'c', 'd', 'e', 'f'];
            assert(c[i] == digits[n]);
        }
    }
}

/// The header `Bearer ` followed by a token's canonical text names the token
/// that parsing that text gives: with the round trip of the canonical text,
/// a bearer request built from an issued token resolves to that token.
pub proof fn lemma_bearer_header_of_token(t: u128)
    ensures
        header_token(Some(bearer_prefix() + encode_utf8(canonical_text(t)))) == (match uuid_parsed(
            encode_utf8(canonical_text(t)),
        ) {
            Some(v) => Ok::<u128, AuthRejection>(v),
            None => Err(AuthRejection::UnknownSession),
        }),
{
    let c = canonical_text(t);
    lemma_canonical_text_visible(t);
    is_ascii_chars_encode_utf8(c);
    let e = encode_utf8(c);
    let h = bearer_prefix() + e;
    assert(h.len() == 43);
    assert forall|i: int| 0 <= i < h.len() implies is_visible_ascii(#[trigger] h[i]) by {
        if i >= 7 {
            assert(h[i] == e[i - 7]);
            assert(e[i - 7] == c[i - 7] as u8);
        }
    }
    assert(h.subrange(0, 7) =~= bearer_prefix());
    assert(h.subrange(7, h.len() as int) =~= e);
}

/// The error a failed resolution is reported with. Authentication fails
/// closed: whatever kept the token from resolving (unparseable, unknown, or
/// the store failing), the request is refused like any other bad credential,
/// with nothing that tells the causes apart.
pub fn resolution_error(e: ResolveError) -> (r: ServiceError)
    ensures
        r.status == STATUS_UNAUTHORIZED,
        r.message@ == rejection_message(AuthRejection::UnknownSession),
        r.details is None,
{
    AuthRejection::UnknownSession.to_error()
}

/// Accepts a resolved session at `now`: it must be valid, and its owner must
/// still exist.
pub fn accept_session(session: SessionUserDTO, now: Timestamp) -> (r: Result<AuthSession, AuthRejection>)
    ensures
        !session.valid_at(now) ==> r == Err::<AuthSession, AuthRejection>(AuthRejection::SessionNotValid),
        session.valid_at(now) && session.user is None
            ==> r == Err::<AuthSession, AuthRejection>(AuthRejection::NoLinkedUser),
        session.valid_at(now) && session.user is Some ==> r == Ok::<AuthSession, AuthRejection>(
            AuthSession { user: session.user->Some_0, session_token: session.token },
        ),
{
    if !session.is_valid_at(now) {
        return Err(AuthRejection::SessionNotValid);
    }
    match session.user {
        None => Err(AuthRejection::NoLinkedUser),
        Some(user) => Ok(AuthSession { user, session_token: session.token }),
    }
}

/// Accepts a resolved session on the system clock.
pub fn authorize(session: SessionUserDTO) -> (r: Result<AuthSession, AuthRejection>)
    ensures
        session.revoked_at is Some ==> r == Err::<AuthSession, AuthRejection>(AuthRejection::SessionNotValid),
        session.user is None ==> r is Err,
        r matches Ok(a) ==> session.user == Some(a.user) && a.session_token == session.token
            && session.revoked_at is None,
{
    accept_session(session, now())
}

/// The outcome of checking credentials against the user the store found for
/// the e-mail: the user's id, or the status and message of the refusal. An
/// unknown e-mail and a wrong password are refused alike.
pub open spec fn credential_check(
    found: Result<Option<UserRow>, StoreError>,
    password: Seq<char>,
) -> Result<i32, (u16, Seq<char>)> {
    match found {
        Err(_) => Err((STATUS_INTERNAL, "Failed to fetch users"@)),
        Ok(None) => Err((STATUS_UNAUTHORIZED, "Invalid email or password"@)),
        Ok(Some(u)) => match verify_outcome(password, u.password@) {
            Err(_) => Err((STATUS_INTERNAL, "The stored password hash is not valid"@)),
            Ok(false) => Err((STATUS_UNAUTHORIZED, "Invalid email or password"@)),
            Ok(true) => Ok(u.id),
        },
    }
}

/// Orchestrates login: credentials first, then the new session.
pub struct AuthService {}

impl AuthService {
    pub fn new() -> (r: AuthService) {
        AuthService {}
    }

    fn check_credentials(
        password: &str,
        found: Result<Option<UserRow>, StoreError>,
    ) -> (r: ServiceResult<i32>)
        ensures
            credential_check(found, password@) matches Ok(id) ==> r == Ok::<i32, ServiceError>(id),
            credential_check(found, password@) matches Err((s, m)) ==> (r matches Err(e)
                && e.status == s && e.message@ == m && e.details is None),
    {
        match found {
            Err(_) => Err(ServiceError::internal("Failed to fetch users")),
            Ok(None) => Err(ServiceError::unauthorized("Invalid email or password")),
            Ok(Some(user)) => match verify_password(password, user.password.as_str()) {
                Err(_) => Err(ServiceError::internal("The stored password hash is not valid")),
                Ok(false) => Err(ServiceError::unauthorized("Invalid email or password")),
                Ok(true) => Ok(user.id),
            },
        }
    }

    /// Login with the token and time of the new session given: the session
    /// row to store, or the refusal.
    pub fn login_with(
        &self,
        payload: &LoginPayload,
        found: Result<Option<UserRow>, StoreError>,
        token: u128,
        now: Timestamp,
    ) -> (r: ServiceResult<SessionRow>)
        ensures
            credential_check(found, payload.password@) matches Err((s, m)) ==> (r matches Err(e)
                && e.status == s && e.message@ == m && e.details is None),
            credential_check(found, payload.password@) matches Ok(id) ==> (if expiry_fits(now) {
                r == Ok::<SessionRow, ServiceError>(opened(token, id, now))
            } else {
                r matches Err(e) && e.status == STATUS_INTERNAL
            }),
    {
        let id = match Self::check_credentials(payload.password.as_str(), found) {
            Ok(id) => id,
            Err(e) => return Err(e),
        };
        SessionService::new().open_at(token, id, now)
    }

    /// Login: checks the password against the user found for the payload's
    /// e-mail and, when it matches, prepares a new session for that user with
    /// a fresh token, created now.
    pub fn login(
        &self,
        payload: &LoginPayload,
        found: Result<Option<UserRow>, StoreError>,
    ) -> (r: ServiceResult<SessionRow>)
        ensures
            credential_check(found, payload.password@) matches Err((s, m)) ==> (r matches Err(e)
                && e.status == s && e.message@ == m && e.details is None),
            credential_check(found, payload.password@) matches Ok(id) ==> (r matches Ok(row) ==> row.user_id == id
                && row.revoked_at is None && row.expire_at.micros == crate::time::expiry_of(row.created_at)
                && row.wf() && is_version4(row.token)),
            credential_check(found, payload.password@) matches Ok(_) ==> (r matches Err(e) ==> e.status
                == STATUS_INTERNAL),
    {
        self.login_with(payload, found, generate_token(), now())
    }
}

} // verus!
