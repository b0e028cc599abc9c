use vstd::prelude::*;
use vstd::string::StringExecFns;

use crate::errors::ServiceError;
use crate::hashing::{blob_matches, hash_password, verify_password};
use crate::ids::{new_uuid, uuid_parses};
use crate::token::{issue_token, signed_token_of, SignedToken, VALIDITY_WINDOW_SECS};
use crate::DEFAULT_ROLE;

verus! {

/// A user record as the credential store holds it. The password hash is
/// opaque storage-side material and is never part of a public projection.
#[derive(Clone, Debug)]
pub struct StoredUser {
    pub id: String,
    pub email: String,
    pub password_hash: String,
    pub full_name: String,
    pub bio: String,
    pub role: String,
}

/// The public-safe projection of a user: what registration and login hand
/// back. There is no hash field, so the hash cannot leak through it.
#[derive(Clone, Debug)]
pub struct UserPublic {
    pub id: String,
    pub username: String,
    pub full_name: String,
    pub bio: String,
}

/// The projection a stored record surfaces to callers: the login email
/// doubles as the username.
pub open spec fn public_view(u: StoredUser) -> UserPublic {
    UserPublic { id: u.id, username: u.email, full_name: u.full_name, bio: u.bio }
}

/// What a completed registration consists of: the record the caller persists,
/// and the projection it returns.
#[derive(Clone, Debug)]
pub struct Registration {
    pub record: StoredUser,
    pub response: UserPublic,
}

/// The role recorded for a registration request: the request's own role, or
/// the baseline role when the request carries none.
pub open spec fn effective_role(role: Seq<char>) -> Seq<char> {
    if role.len() == 0 {
        DEFAULT_ROLE@
    } else {
        role
    }
}

/// Register a new identity: hash the password, mint a fresh identifier, and
/// assemble the record to persist together with its public projection. Email
/// uniqueness is the store's constraint, not checked here; the only failure
/// is the hashing module's entropy-source failure, surfaced as internal.
pub fn create_user(email: &str, password: &str, full_name: &str, bio: &str, role: &str) -> (r:
    Result<Registration, ServiceError>)
    ensures
        r matches Ok(reg) ==> {
            &&& reg.record.email@ == email@
            &&& blob_matches(password@, reg.record.password_hash@)
            &&& reg.record.full_name@ == full_name@
            &&& reg.record.bio@ == bio@
            &&& reg.record.role@ == effective_role(role@)
            &&& uuid_parses(reg.record.id@)
            &&& reg.response == public_view(reg.record)
        },
        r matches Err(e) ==> e == ServiceError::Internal,
{
    let password_hash = match hash_password(password) {
        Some(blob) => blob,
        None => {
            return Err(ServiceError::Internal);
        },
    };
    let id = new_uuid();
    let role_value = if role.unicode_len() == 0 {
        String::from_str(DEFAULT_ROLE)
    } else {
        String::from_str(role)
    };
    let record = StoredUser {
        id,
        email: String::from_str(email),
        password_hash,
        full_name: String::from_str(full_name),
        bio: String::from_str(bio),
        role: role_value,
    };
    let response = UserPublic {
        id: record.id.clone(),
        username: record.email.clone(),
        full_name: record.full_name.clone(),
        bio: record.bio.clone(),
    };
    Ok(Registration { record, response })
}

/// A successful login: the signed session token and the public projection of
/// the account.
#[derive(Clone, Debug)]
pub struct LoginSuccess {
    pub token: SignedToken,
    pub user: UserPublic,
}

/// Whether a login attempt carries valid credentials: the email resolved to a
/// record and the password verifies against its stored hash. A missing
/// account and a wrong password are the same `false` here, which is what
/// keeps the two rejections indistinguishable.
pub open spec fn credentials_ok(fetched: Option<StoredUser>, password: Seq<char>) -> bool {
    fetched matches Some(u) && blob_matches(password, u.password_hash@)
}

/// Authenticate a login attempt. `fetched` is what the credential store
/// returned for the request's email; `now` is the current epoch time. The
/// call succeeds exactly on valid credentials — token issuance cannot fail —
/// and bad credentials of either kind are exactly the `Unauthenticated`
/// error.
pub fn login(
    fetched: Option<&StoredUser>,
    email: &str,
    password: &str,
    now: u64,
    secret: &[u8],
) -> (r: Result<LoginSuccess, ServiceError>)
    requires
        now + VALIDITY_WINDOW_SECS <= u64::MAX,
    ensures
        r is Ok <==> credentials_ok(
            match fetched {
                Some(u) => Some(*u),
                None => None,
            },
            password@,
        ),
        r matches Err(e) ==> e == ServiceError::Unauthenticated,
        r matches Ok(s) ==> {
            &&& fetched matches Some(u)
            &&& blob_matches(password@, u.password_hash@)
            &&& s.user == public_view(*u)
            &&& s.token.claims.sub@ == email@
            &&& s.token.claims.user_id@ == u.id@
            &&& s.token.claims.exp == now + VALIDITY_WINDOW_SECS
            &&& s.token.token@ == signed_token_of(email@, u.id@, s.token.claims.exp, secret@)
        },
{
    let user = match fetched {
        Some(u) => u,
        None => {
            return Err(ServiceError::Unauthenticated);
        },
    };
    if !verify_password(password, user.password_hash.as_str()) {
        return Err(ServiceError::Unauthenticated);
    }
    let token = match issue_token(email, user.id.as_str(), now, secret) {
        Ok(t) => t,
        Err(e) => {
            return Err(e);
        },
    };
    Ok(
        LoginSuccess {
            token,
            user: UserPublic {
                id: user.id.clone(),
                username: user.email.clone(),
                full_name: user.full_name.clone(),
                bio: user.bio.clone(),
            },
        },
    )
}

/// Look a user up by identifier. The store's answer decides: a missing record
/// is the distinguished not-found error, never conflated with an
/// authentication failure.
pub fn get_user(fetched: Option<StoredUser>) -> (r: Result<UserPublic, ServiceError>)
    ensures
        fetched matches Some(u) ==> r matches Ok(p) && p == public_view(u),
        fetched is None <==> (r matches Err(e) && e == ServiceError::NotFound),
{
    match fetched {
        Some(u) => Ok(
            UserPublic { id: u.id, username: u.email, full_name: u.full_name, bio: u.bio },
        ),
        None => Err(ServiceError::NotFound),
    }
}

/// Law: a login with an email the store does not know and a login with a
/// known email but a wrong password are rejected for one and the same
/// reason — neither attempt carries valid credentials — so `login` returns
/// the identical `Unauthenticated` error, and with it the identical message,
/// for both.
pub proof fn lemma_login_rejections_indistinguishable(
    u: StoredUser,
    any_password: Seq<char>,
    wrong_password: Seq<char>,
)
    requires
        !blob_matches(wrong_password, u.password_hash@),
    ensures
        !credentials_ok(None::<StoredUser>, any_password),
        !credentials_ok(Some(u), wrong_password),
{
}

} // verus!
