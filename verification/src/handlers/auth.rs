//! Registration, login and the authentication guard that resolves a bearer
//! token to a stored user.

use vstd::prelude::*;

use crate::errors::ApiError;
use crate::models::User;
use crate::password::{bcrypt_accepts, hash_password, verify_password};
use crate::state::{AppState, same_but_users};
use crate::token::{TOKEN_LIFETIME_SECS, create_token, decoded_of, token_of, validate_token};
use crate::user_store::{has_email, user_with_email};

verus! {

#[derive(Debug)]
pub struct LoginRequest {
    pub email: String,
    pub password: String,
}

#[derive(Debug)]
pub struct RegisterRequest {
    pub username: String,
    pub email: String,
    pub password: String,
    pub role: String,
}

#[derive(Debug)]
pub struct AuthResponse {
    pub token: String,
}

/// Some stored user carries `email` and `password` verifies against that
/// user's stored hash: exactly the credentials `login` accepts.
pub open spec fn credentials_match(users: Seq<User>, email: Seq<char>, password: Seq<char>) -> bool {
    exists|i: int|
        0 <= i < users.len() && users[i].email@ == email
            && bcrypt_accepts(password, users[i].password_hash@)
}

/// The subject a bearer token resolves to under `secret` at time `now`: the
/// carried email if the signature matches and the expiry lies after `now`,
/// and nothing otherwise.
pub open spec fn auth_subject(secret: Seq<u8>, token: Seq<char>, now: u64) -> Option<Seq<char>> {
    match decoded_of(secret, token) {
        Some(p) => if p.1 > now {
            Some(p.0)
        } else {
            None
        },
        None => None,
    }
}

/// The token resolves to a subject and some stored user carries it: exactly
/// when the authentication guard succeeds.
pub open spec fn auth_ok(users: Seq<User>, secret: Seq<u8>, token: Seq<char>, now: u64) -> bool {
    auth_subject(secret, token, now) matches Some(sub) && has_email(users, sub)
}

/// Creates an account: stores the username, email, role and a salted hash
/// of the password — never the plaintext — and signs a token for the new
/// account. Fails with `Conflict` exactly when the email is already taken;
/// `Internal` covers only an exhausted id space or a failure of the
/// system's randomness source while salting.
pub fn register(state: &mut AppState, form: RegisterRequest, now: u64) -> (r: Result<
    AuthResponse,
    ApiError,
>)
    requires
        old(state).wf(),
        now + TOKEN_LIFETIME_SECS <= u64::MAX,
    ensures
        final(state).wf(),
        same_but_users(*old(state), *final(state)),
        has_email(old(state).users@, form.email@) ==> r == Err::<AuthResponse, ApiError>(
            ApiError::Conflict,
        ),
        r matches Err(e) ==> final(state).users@ == old(state).users@ && final(state).users.spec_next_id() == old(state).users.spec_next_id() && (e == ApiError::Conflict
            <==> has_email(old(state).users@, form.email@)) && (e == ApiError::Conflict || e
            == ApiError::Internal),
        r matches Ok(a) ==> ({
            let u = final(state).users@.last();
            &&& final(state).users@ == old(state).users@.push(u)
            &&& final(state).users.spec_next_id() == old(state).users.spec_next_id() + 1
            &&& !has_email(old(state).users@, form.email@)
            &&& u.id == old(state).users.spec_next_id()
            &&& u.username == form.username
            &&& u.email == form.email
            &&& u.role == form.role
            &&& u.created_at == now
            &&& u.updated_at == now
            &&& bcrypt_accepts(form.password@, u.password_hash@)
            &&& a.token@ == token_of(
                old(state).spec_secret(),
                form.email@,
                (now + TOKEN_LIFETIME_SECS) as u64,
            )
        }),
{
    match state.users.find_by_email(&form.email) {
        Ok(_) => {
            return Err(ApiError::Conflict);
        },
        Err(_) => {},
    };
    let hash = match hash_password(&form.password) {
        Some(h) => h,
        None => {
            return Err(ApiError::Internal);
        },
    };
    let user = match state.users.create(form.username, form.email, hash, form.role, now) {
        Ok(u) => u,
        Err(e) => {
            return Err(e);
        },
    };
    let token = create_token(state.secret_bytes(), &user.email, now);
    Ok(AuthResponse { token })
}

/// Logs an account in: succeeds exactly when a stored user carries the
/// email and the password verifies against that user's hash, and then signs
/// a fresh token for the email. A wrong email and a wrong password are both
/// reported only as `Unauthenticated`.
pub fn login(state: &AppState, form: &LoginRequest, now: u64) -> (r: Result<AuthResponse, ApiError>)
    requires
        state.wf(),
        now + TOKEN_LIFETIME_SECS <= u64::MAX,
    ensures
        r is Ok <==> credentials_match(state.users@, form.email@, form.password@),
        r matches Ok(a) ==> a.token@ == token_of(
            state.spec_secret(),
            form.email@,
            (now + TOKEN_LIFETIME_SECS) as u64,
        ),
        r matches Err(e) ==> e == ApiError::Unauthenticated,
{
    let user = match state.users.find_by_email(&form.email) {
        Ok(u) => u,
        Err(_) => {
            proof {
                if credentials_match(state.users@, form.email@, form.password@) {
                    let i = choose|i: int|
                        0 <= i < state.users@.len() && state.users@[i].email@ == form.email@
                            && bcrypt_accepts(form.password@, state.users@[i].password_hash@);
                    assert(has_email(state.users@, form.email@));
                }
            }
            return Err(ApiError::Unauthenticated);
        },
    };
    if verify_password(&form.password, &user.password_hash) {
        let token = create_token(state.secret_bytes(), &form.email, now);
        proof {
            let i = choose|i: int|
                0 <= i < state.users@.len() && state.users@[i].email@ == form.email@;
            assert(credentials_match(state.users@, form.email@, form.password@)) by {
                assert(state.users@[i] == user);
            }
        }
        Ok(AuthResponse { token })
    } else {
        proof {
            if credentials_match(state.users@, form.email@, form.password@) {
                let i = choose|i: int|
                    0 <= i < state.users@.len() && state.users@[i].email@ == form.email@
                        && bcrypt_accepts(form.password@, state.users@[i].password_hash@);
                let k = choose|k: int|
                    0 <= k < state.users@.len() && state.users@[k].email@ == form.email@;
                assert(state.users@[i] == state.users@[k]) by {
                    if i != k {
                        assert(state.users@[i].email@ != state.users@[k].email@);
                    }
                }
                assert(false);
            }
        }
        Err(ApiError::Unauthenticated)
    }
}

/// The authentication guard: resolves a raw bearer token to the stored user
/// whose email the token's validated subject names. A missing subject, a
/// bad or expired token and an unknown email are all reported only as
/// `Unauthenticated`.
pub fn get_user_from_token(state: &AppState, token: &String, now: u64) -> (r: Result<
    User,
    ApiError,
>)
    requires
        state.wf(),
    ensures
        r is Ok <==> auth_ok(state.users@, state.spec_secret(), token@, now),
        r matches Ok(u) ==> (auth_subject(state.spec_secret(), token@, now) matches Some(sub)
            && u == user_with_email(state.users@, sub) && state.users@.contains(u) && u.email@
            == sub),
        r matches Err(e) ==> e == ApiError::Unauthenticated,
        forall|sub: Seq<char>, exp: u64|
            token@ == #[trigger] token_of(state.spec_secret(), sub, exp) && exp > now
                ==> auth_subject(state.spec_secret(), token@, now) == Some(sub),
        forall|sub: Seq<char>, exp: u64|
            token@ == #[trigger] token_of(state.spec_secret(), sub, exp) && exp > now && has_email(
                state.users@,
                sub,
            ) ==> (r matches Ok(u) && u == user_with_email(state.users@, sub)),
{
    let claims = match validate_token(state.secret_bytes(), token, now) {
        Ok(c) => c,
        Err(_) => {
            return Err(ApiError::Unauthenticated);
        },
    };
    match state.users.find_by_email(&claims.sub) {
        Ok(u) => Ok(u),
        Err(_) => Err(ApiError::Unauthenticated),
    }
}

} // verus!
