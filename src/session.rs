//! Sessions: issuing, resolving, validity and revocation.
//!
//! The store itself lives with the caller. Each operation here is a step that
//! prepares what the store is asked to do, or turns what the store answered
//! into the service's result.
use vstd::prelude::*;
use crate::errors::{ServiceError, ServiceResult, STATUS_BAD_REQUEST, STATUS_INTERNAL};
use crate::time::{expiry_fits, expiry_of, now, Timestamp};
use crate::token::{canonical_text, generate_token, is_version4, parse_token, token_text, uuid_parsed};
use vstd::utf8::encode_utf8;
use crate::user::{public_fields, UserDto, UserRow};
use vstd::string::StringSliceAdditionalSpecFns;

verus! {

/// A stored session.
#[derive(Clone, Copy, Debug, PartialEq, Eq, Structural)]
pub struct SessionRow {
    pub token: u128,
    pub user_id: i32,
    pub created_at: Timestamp,
    pub expire_at: Timestamp,
    pub revoked_at: Option<Timestamp>,
}

/// Where a session stands at a given moment.
#[derive(Clone, Copy, Debug, PartialEq, Eq, Structural)]
pub enum SessionState {
    Active,
    Expired,
    Revoked,
}

/// A failure reported by the store; its text is for the operator's log only.
#[derive(Debug)]
pub struct StoreError {
    pub message: String,
}

/// The session opened for `user_id` at `now` under `token`.
pub open spec fn opened(token: u128, user_id: i32, now: Timestamp) -> SessionRow {
    SessionRow {
        token,
        user_id,
        created_at: now,
        expire_at: Timestamp { micros: expiry_of(now) as i64 },
        revoked_at: None,
    }
}

impl SessionRow {
    /// A session always expires after it was created.
    pub open spec fn wf(&self) -> bool {
        self.created_at.micros < self.expire_at.micros
    }

    /// The validity predicate: not revoked, and not yet expired at `now`.
    pub open spec fn valid_at(&self, now: Timestamp) -> bool {
        self.revoked_at is None && now.micros < self.expire_at.micros
    }

    pub open spec fn state_spec(&self, now: Timestamp) -> SessionState {
        if self.revoked_at is Some {
            SessionState::Revoked
        } else if now.micros < self.expire_at.micros {
            SessionState::Active
        } else {
            SessionState::Expired
        }
    }

    /// The row after the conditional update that revokes it at `at`: only a
    /// session not yet revoked takes the timestamp.
    pub open spec fn revoked_spec(self, at: Timestamp) -> SessionRow {
        if self.revoked_at is None {
            SessionRow { revoked_at: Some(at), ..self }
        } else {
            self
        }
    }

    /// Opens a session for `user_id` at `now`.
    pub fn open(token: u128, user_id: i32, now: Timestamp) -> (r: SessionRow)
        requires
            expiry_fits(now),
        ensures
            r == opened(token, user_id, now),
            r.wf(),
    {
        let expire_at = Timestamp { micros: now.micros + crate::time::SESSION_DURATION_MICROS };
        SessionRow { token, user_id, created_at: now, expire_at, revoked_at: None }
    }

    pub fn is_valid_at(&self, now: Timestamp) -> (r: bool)
        ensures
            r == self.valid_at(now),
    {
        self.revoked_at.is_none() && now.micros < self.expire_at.micros
    }

    pub fn state_at(&self, now: Timestamp) -> (r: SessionState)
        ensures
            r == self.state_spec(now),
    {
        if self.revoked_at.is_some() {
            SessionState::Revoked
        } else if now.micros < self.expire_at.micros {
            SessionState::Active
        } else {
            SessionState::Expired
        }
    }

    /// Revokes the session at `at` unless it already is revoked; returns
    /// whether this call changed it.
    pub fn revoke(&mut self, at: Timestamp) -> (changed: bool)
        ensures
            *final(self) == old(self).revoked_spec(at),
            changed == (old(self).revoked_at is None),
    {
        if self.revoked_at.is_none() {
            self.revoked_at = Some(at);
            true
        } else {
            false
        }
    }
}

/// A session looked up together with the user who owns it.
#[derive(Debug)]
pub struct SessionUserDTO {
    pub token: String,
    pub revoked_at: Option<Timestamp>,
    pub expire_at: Timestamp,
    pub user: Option<UserDto>,
}

/// The same resolved session, under the name the domain layer uses.
pub type SessionWithUser = SessionUserDTO;

impl SessionUserDTO {
    /// Joins a stored session with its owner, if the owner still exists.
    pub fn from_rows(session: &SessionRow, user: Option<UserRow>) -> (r: SessionUserDTO)
        ensures
            r.token@ == canonical_text(session.token),
            uuid_parsed(encode_utf8(r.token@)) == Some(session.token),
            r.revoked_at == session.revoked_at,
            r.expire_at == session.expire_at,
            user is None ==> r.user is None,
            user matches Some(u) ==> r.user == Some(public_fields(u)),
    {
        SessionUserDTO {
            token: token_text(session.token),
            revoked_at: session.revoked_at,
            expire_at: session.expire_at,
            user: match user {
                Some(u) => Some(UserDto::from(u)),
                None => None,
            },
        }
    }

    pub open spec fn valid_at(&self, now: Timestamp) -> bool {
        self.revoked_at is None && now.micros < self.expire_at.micros
    }

    /// The validity predicate at a given moment.
    pub fn is_valid_at(&self, now: Timestamp) -> (r: bool)
        ensures
            r == self.valid_at(now),
    {
        self.revoked_at.is_none() && now.micros < self.expire_at.micros
    }

    /// The validity predicate now, on the system clock.
    pub fn is_valid(&self) -> (r: bool)
        ensures
            self.revoked_at is Some ==> !r,
    {
        self.is_valid_at(now())
    }
}

/// The token handed to a client.
#[derive(Debug)]
pub struct SessionTokenDTO {
    pub token: String,
}

impl SessionTokenDTO {
    pub fn from_row(session: &SessionRow) -> (r: SessionTokenDTO)
        ensures
            r.token@ == canonical_text(session.token),
            uuid_parsed(encode_utf8(r.token@)) == Some(session.token),
    {
        SessionTokenDTO { token: token_text(session.token) }
    }
}

/// Confirmation sent after a logout.
#[derive(Debug)]
pub struct LogoutSuccessDTO {
    pub message: String,
}

/// Why a token could not be resolved to a session.
#[derive(Clone, Copy, Debug, PartialEq, Eq, Structural)]
pub enum ResolveError {
    MalformedToken,
    SessionNotFound,
    StorageFailure,
}

/// The revocation the store is asked to perform: set the revocation time of
/// the session with this token, where it is not yet set.
#[derive(Clone, Copy, Debug, PartialEq, Eq, Structural)]
pub struct RevokeCommand {
    pub token: u128,
    pub at: Timestamp,
}

impl RevokeCommand {
    /// What the conditional update does to one stored row.
    pub open spec fn applied_to(self, row: SessionRow) -> SessionRow {
        if row.token == self.token {
            row.revoked_spec(self.at)
        } else {
            row
        }
    }
}

/// Session lifetime policy. The store is reached by the caller, which hands
/// each outcome back to the matching step here.
pub struct SessionService {}

impl SessionService {
    pub fn new() -> (r: SessionService) {
        SessionService {}
    }

    /// The row to insert for a session under `token`, opened for `user_id`
    /// at `at`; refused when the expiry would leave the clock's range.
    pub fn open_at(&self, token: u128, user_id: i32, at: Timestamp) -> (r: ServiceResult<SessionRow>)
        ensures
            expiry_fits(at) ==> r == Ok::<SessionRow, ServiceError>(opened(token, user_id, at)),
            !expiry_fits(at) ==> (r matches Err(e) && e.status == STATUS_INTERNAL),
    {
        if at.micros <= i64::MAX - crate::time::SESSION_DURATION_MICROS {
            Ok(SessionRow::open(token, user_id, at))
        } else {
            Err(ServiceError::internal("The clock is out of range"))
        }
    }

    /// The row to insert for a new session: a fresh token, created now,
    /// expiring after the session duration.
    pub fn create(&self, user_id: i32) -> (r: ServiceResult<SessionRow>)
        ensures
            r matches Ok(row) ==> row.user_id == user_id && row.revoked_at is None
                && row.expire_at.micros == expiry_of(row.created_at) && row.wf()
                && is_version4(row.token),
            r matches Err(e) ==> e.status == STATUS_INTERNAL,
    {
        self.open_at(generate_token(), user_id, now())
    }

    /// The result of `create` once the store answered the insert. A storage
    /// failure is reported without its details.
    pub fn stored(&self, outcome: Result<SessionRow, StoreError>) -> (r: ServiceResult<SessionTokenDTO>)
        ensures
            outcome matches Ok(row) ==> (r matches Ok(dto) && dto.token@ == canonical_text(row.token)),
            outcome is Err ==> (r matches Err(e) && e.status == STATUS_INTERNAL && e.details is None
                && e.message@ == "Internal error during the creation of the session"@),
    {
        match outcome {
            Ok(row) => Ok(SessionTokenDTO::from_row(&row)),
            Err(_) => Err(ServiceError::internal("Internal error during the creation of the session")),
        }
    }

    /// The token that a text names, for the lookup of `get_with_user`.
    pub fn resolve_token(&self, text: &str) -> (r: Result<u128, ResolveError>)
        ensures
            r == (match uuid_parsed(text.spec_bytes()) {
                Some(t) => Ok::<u128, ResolveError>(t),
                None => Err(ResolveError::MalformedToken),
            }),
    {
        match parse_token(text) {
            Some(t) => Ok(t),
            None => Err(ResolveError::MalformedToken),
        }
    }

    /// The resolved session once the store answered the lookup of a session
    /// joined with its owner. Validity is not judged here.
    pub fn get_with_user(
        &self,
        found: Result<Option<(SessionRow, Option<UserRow>)>, StoreError>,
    ) -> (r: Result<SessionUserDTO, ResolveError>)
        ensures
            found is Err ==> r == Err::<SessionUserDTO, ResolveError>(ResolveError::StorageFailure),
            found matches Ok(None) ==> r == Err::<SessionUserDTO, ResolveError>(ResolveError::SessionNotFound),
            found matches Ok(Some((row, user))) ==> (r matches Ok(dto)
                && dto.token@ == canonical_text(row.token)
                && dto.revoked_at == row.revoked_at
                && dto.expire_at == row.expire_at
                && (user is None ==> dto.user is None)
                && (user matches Some(u) ==> dto.user == Some(public_fields(u)))),
    {
        match found {
            Err(_) => Err(ResolveError::StorageFailure),
            Ok(None) => Err(ResolveError::SessionNotFound),
            Ok(Some((row, user))) => Ok(SessionUserDTO::from_rows(&row, user)),
        }
    }

    /// The conditional update that revokes the session a text names, at the
    /// current time.
    pub fn revoke_token(&self, id: &str) -> (r: ServiceResult<RevokeCommand>)
        ensures
            uuid_parsed(id.spec_bytes()) matches Some(t) ==> (r matches Ok(cmd) && cmd.token == t),
            uuid_parsed(id.spec_bytes()) is None ==> (r matches Err(e) && e.status == STATUS_BAD_REQUEST
                && e.message@ == "The given token is malformated"@),
    {
        match parse_token(id) {
            Some(token) => Ok(RevokeCommand { token, at: now() }),
            None => Err(ServiceError::bad_request("The given token is malformated")),
        }
    }

    /// The result of `revoke_token` once the store reported how many rows the
    /// update changed. No row changed means the session is unknown or was
    /// already revoked: both are reported as not found, so a repeated logout
    /// fails although the session stays revoked.
    pub fn revoked(&self, id: String, affected: Result<u64, StoreError>) -> (r: ServiceResult<SessionTokenDTO>)
        ensures
            (affected matches Ok(n) && n > 0) ==> (r matches Ok(dto) && dto.token == id),
            affected == Ok::<u64, StoreError>(0) ==> (r matches Err(e) && e.status == STATUS_BAD_REQUEST
                && e.message@ == "No session found"@),
            affected is Err ==> (r matches Err(e) && e.status == STATUS_INTERNAL && e.details is None),
    {
        match affected {
            Ok(n) => {
                if n == 0 {
                    Err(ServiceError::bad_request("No session found"))
                } else {
                    Ok(SessionTokenDTO { token: id })
                }
            },
            Err(_) => Err(ServiceError::internal("Internal error during the revocation of the session")),
        }
    }
}

/// Once the revocation of a session has been applied, the session is not
/// valid at any moment, though the row is still there to be found under its
/// token; and a session resolved from that row is not valid either.
pub proof fn lemma_revoked_session_never_valid(
    row: SessionRow,
    cmd: RevokeCommand,
    resolved: SessionUserDTO,
    at: Timestamp,
)
    requires
        row.token == cmd.token,
        resolved.revoked_at == cmd.applied_to(row).revoked_at,
        resolved.expire_at == cmd.applied_to(row).expire_at,
    ensures
        !cmd.applied_to(row).valid_at(at),
        cmd.applied_to(row).token == row.token,
        !resolved.valid_at(at),
{
}

/// Revoking is one-way and idempotent: a second revocation changes nothing,
/// and the first timestamp stays.
pub proof fn lemma_revoke_idempotent(row: SessionRow, first: Timestamp, second: Timestamp)
    ensures
        row.revoked_spec(first).revoked_spec(second) == row.revoked_spec(first),
        row.revoked_spec(first).revoked_at is Some,
{
}

/// What a resolved session says of validity is what its stored row says.
pub proof fn lemma_resolved_validity_matches_row(row: SessionRow, dto: SessionUserDTO, at: Timestamp)
    requires
        dto.revoked_at == row.revoked_at,
        dto.expire_at == row.expire_at,
    ensures
        dto.valid_at(at) == row.valid_at(at),
{
}

} // verus!
