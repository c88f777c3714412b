//! The decisions of the three endpoints. The storage collaborator is asked
//! by the caller: each function here takes what it answered.

use crate::auth::{
    expiry_after, extract_outcome, issue_jwt_at, issue_outcome, lemma_bearer_admits, token_carries,
    AuthConfig, AuthUser, BEARER_PREFIX,
};
use crate::clock::unix_now;
use crate::error::{
    AuthError, ServiceError, StorageError, STATUS_CONFLICT, STATUS_CREATED, STATUS_INTERNAL,
};
use crate::ids::{uuid_hyphenated, uuid_to_text};
use crate::models::{
    public_profile, CreateUser, CreateUserView, LoginRequest, LoginResponse, NewUser, NewUserView,
    PublicUser, PublicUserView, User, UserView,
};
use crate::phc::fresh_salt;
use crate::utils::{hash_outcome, hash_password_with_salt, password_matches, verify_password};
use vstd::prelude::*;

verus! {

/// What the first half of registration gives under `salt`: the record to
/// insert, with name and address as they came and the password replaced by
/// its hash under `salt`; or a backend failure where hashing gives none.
pub open spec fn register_outcome(payload: CreateUserView, salt: Seq<char>) -> Result<
    NewUserView,
    ServiceError,
> {
    match hash_outcome(payload.password, salt) {
        Ok(hash) => Ok(
            NewUserView { username: payload.username, email: payload.email, password_hash: hash },
        ),
        Err(e) => Err(e),
    }
}

/// The outcome of the first half of registration, as a mathematical value.
pub open spec fn record_view(r: Result<NewUser, ServiceError>) -> Result<
    NewUserView,
    ServiceError,
> {
    match r {
        Ok(record) => Ok(record@),
        Err(e) => Err(e),
    }
}

/// Registration, first half, under the given salt: see [`register_outcome`].
/// A record is returned exactly where hashing succeeds; its hash verifies
/// against the password of the request.
pub fn register_with_salt(payload: CreateUser, salt: &str) -> (r: Result<NewUser, ServiceError>)
    ensures
        record_view(r) == register_outcome(payload@, salt@),
        r matches Ok(record) ==> password_matches(record.password_hash@, payload.password@),
{
    match hash_password_with_salt(payload.password.as_str(), salt) {
        Ok(password_hash) => Ok(
            NewUser { username: payload.username, email: payload.email, password_hash },
        ),
        Err(e) => Err(e),
    }
}

/// Registration, first half: hashes the password under a freshly drawn random
/// salt and returns the record to insert, with name and address as they came.
/// It fails only where the hashing backend does, under the salt that was
/// drawn. The hash verifies against the password of the request.
pub fn register(payload: CreateUser) -> (r: Result<NewUser, ServiceError>)
    ensures
        exists|salt: Seq<char>| record_view(r) == #[trigger] register_outcome(payload@, salt),
        r matches Ok(record) ==> password_matches(record.password_hash@, payload.password@),
{
    let salt = fresh_salt();
    register_with_salt(payload, salt.as_str())
}

/// What registration answers once the insert has been tried: status 201 with
/// the public profile of the new account; a conflict where the address was
/// already present; a storage error for any other failure.
pub open spec fn registered_outcome(inserted: Result<UserView, StorageError>) -> Result<
    (u16, PublicUserView),
    ServiceError,
> {
    match inserted {
        Ok(user) => Ok((STATUS_CREATED, public_profile(user))),
        Err(e) => Err(ServiceError::of_storage(e)),
    }
}

/// The outcome of an insert, as a mathematical value.
pub open spec fn inserted_view(inserted: Result<User, StorageError>) -> Result<
    UserView,
    StorageError,
> {
    match inserted {
        Ok(user) => Ok(user@),
        Err(e) => Err(e),
    }
}

/// The answer to a registration, as a mathematical value.
pub open spec fn created_view(r: Result<(u16, PublicUser), ServiceError>) -> Result<
    (u16, PublicUserView),
    ServiceError,
> {
    match r {
        Ok((status, profile)) => Ok((status, profile@)),
        Err(e) => Err(e),
    }
}

/// Registration, second half: turns the storage collaborator's answer to the
/// insert into the answer to the client. See [`registered_outcome`].
pub fn registered(inserted: Result<User, StorageError>) -> (r: Result<
    (u16, PublicUser),
    ServiceError,
>)
    ensures
        created_view(r) == registered_outcome(inserted_view(inserted)),
{
    match inserted {
        Ok(user) => Ok((STATUS_CREATED, PublicUser::from(user))),
        Err(e) => Err(ServiceError::from_storage(e)),
    }
}

/// A failed insert is answered with the conflict status exactly where the
/// address was already present, and with the internal status otherwise: a
/// duplicate is never reported as a backend failure, nor the reverse.
pub proof fn lemma_duplicate_is_conflict(failure: StorageError)
    ensures
        registered_outcome(Err(failure)) matches Err(e) && {
            &&& e == ServiceError::Conflict <==> failure == StorageError::Conflict
            &&& e.spec_status() == STATUS_CONFLICT <==> failure == StorageError::Conflict
            &&& e.spec_status() == STATUS_INTERNAL <==> failure != StorageError::Conflict
        },
{
}

/// What a login gives at `now`. A failed lookup is a storage error. An
/// unknown address and a password that does not verify against the stored
/// hash are the same error. Otherwise a token is issued for the account's
/// identifier, in its hyphenated text form.
pub open spec fn login_outcome(
    found: Result<Option<UserView>, StorageError>,
    password: Seq<char>,
    now: i64,
    secret: Seq<char>,
) -> Result<Seq<char>, ServiceError> {
    match found {
        Err(_) => Err(ServiceError::Storage),
        Ok(None) => Err(ServiceError::InvalidCredentials),
        Ok(Some(user)) => if password_matches(user.password_hash, password) {
            issue_outcome(uuid_hyphenated(user.id), now, secret)
        } else {
            Err(ServiceError::InvalidCredentials)
        },
    }
}

/// Whether a login at `now` is owed a token: the address is known, the
/// password verifies against the stored hash, and the expiry 24 hours after
/// `now` is a valid expiry.
pub open spec fn login_admitted(
    found: Result<Option<UserView>, StorageError>,
    password: Seq<char>,
    now: i64,
) -> bool {
    found matches Ok(Some(user)) && password_matches(user.password_hash, password) && 0
        <= expiry_after(now) <= usize::MAX
}

/// The outcome of a lookup by address, as a mathematical value.
pub open spec fn found_view(found: Result<Option<User>, StorageError>) -> Result<
    Option<UserView>,
    StorageError,
> {
    match found {
        Ok(Some(user)) => Ok(Some(user@)),
        Ok(None) => Ok(None),
        Err(e) => Err(e),
    }
}

/// The answer to a login, as a mathematical value.
pub open spec fn login_view(r: Result<LoginResponse, ServiceError>) -> Result<
    Seq<char>,
    ServiceError,
> {
    match r {
        Ok(response) => Ok(response.token@),
        Err(e) => Err(e),
    }
}

/// Login at the instant `now`, given what the lookup of the request's address
/// found: see [`login_outcome`]. A token that is returned is bound to the
/// account's identifier and reads back as that identifier.
pub fn login_at(
    found: Result<Option<User>, StorageError>,
    payload: &LoginRequest,
    now: i64,
    config: &AuthConfig,
) -> (r: Result<LoginResponse, ServiceError>)
    ensures
        login_view(r) == login_outcome(
            found_view(found),
            payload.password@,
            now,
            config.secret_text(),
        ),
        r is Ok <==> login_admitted(found_view(found), payload.password@, now),
        r matches Ok(response) ==> found matches Ok(Some(user)) && {
            &&& now < expiry_after(now) <= usize::MAX
            &&& token_carries(
                response.token@,
                config.secret_text(),
                uuid_hyphenated(user.id),
                expiry_after(now) as u64,
            )
            &&& extract_outcome(
                Some(BEARER_PREFIX@ + response.token@),
                now,
                config.secret_text(),
            ) == Ok::<AuthUser, AuthError>(AuthUser { user_id: user.id })
        },
{
    let user = match found {
        Err(_) => { return Err(ServiceError::Storage); },
        Ok(None) => { return Err(ServiceError::InvalidCredentials); },
        Ok(Some(user)) => user,
    };
    if !verify_password(user.password_hash.as_str(), payload.password.as_str()) {
        return Err(ServiceError::InvalidCredentials);
    }
    let subject = uuid_to_text(user.id);
    match issue_jwt_at(subject.as_str(), now, config) {
        Ok(token) => {
            proof {
                lemma_bearer_admits(
                    token@,
                    config.secret_text(),
                    subject@,
                    expiry_after(now) as usize,
                    user.id,
                    now,
                );
            }
            Ok(LoginResponse { token })
        },
        Err(e) => Err(e),
    }
}

/// Login now, by the system clock. See [`login_at`].
pub fn login(
    found: Result<Option<User>, StorageError>,
    payload: &LoginRequest,
    config: &AuthConfig,
) -> (r: Result<LoginResponse, ServiceError>)
    ensures
        exists|now: i64|
            login_view(r) == #[trigger] login_outcome(
                found_view(found),
                payload.password@,
                now,
                config.secret_text(),
            ),
        found is Err ==> r == Err::<LoginResponse, ServiceError>(ServiceError::Storage),
        found == Ok::<Option<User>, StorageError>(None) ==> r == Err::<
            LoginResponse,
            ServiceError,
        >(ServiceError::InvalidCredentials),
        (exists|now: i64| #[trigger] login_admitted(found_view(found), payload.password@, now))
            || r is Err,
        r matches Ok(response) ==> found matches Ok(Some(user)) && (exists|now: i64|
            {
                &&& now < expiry_after(now) <= usize::MAX
                &&& #[trigger] token_carries(
                    response.token@,
                    config.secret_text(),
                    uuid_hyphenated(user.id),
                    expiry_after(now) as u64,
                )
                &&& extract_outcome(
                    Some(BEARER_PREFIX@ + response.token@),
                    now,
                    config.secret_text(),
                ) == Ok::<AuthUser, AuthError>(AuthUser { user_id: user.id })
            }),
{
    let now = unix_now();
    login_at(found, payload, now, config)
}

/// A login with a known address and a wrong password and a login with an
/// unknown address have the same outcome, and so the same status and the same
/// message: a caller cannot tell whether the address exists.
pub proof fn lemma_login_failures_alike(
    user: UserView,
    password: Seq<char>,
    now: i64,
    secret: Seq<char>,
)
    ensures
        !password_matches(user.password_hash, password) ==> login_outcome(
            Ok(Some(user)),
            password,
            now,
            secret,
        ) == login_outcome(Ok(None), password, now, secret),
        login_outcome(Ok(None), password, now, secret) == Err::<Seq<char>, ServiceError>(
            ServiceError::InvalidCredentials,
        ),
        ServiceError::InvalidCredentials.spec_status() == crate::error::STATUS_UNAUTHORIZED,
{
}

/// Lists the accounts for an authenticated caller, given what storage
/// returned: a storage error where it failed, and else the public profile of
/// every account, in the same order. No profile holds a password hash.
pub fn list_users(_auth: AuthUser, rows: Result<Vec<User>, StorageError>) -> (r: Result<
    Vec<PublicUser>,
    ServiceError,
>)
    ensures
        match rows {
            Ok(users) => {
                &&& r matches Ok(profiles)
                &&& profiles@.len() == users@.len()
                &&& forall|i: int|
                    0 <= i < users@.len() ==> (#[trigger] profiles@[i])@ == public_profile(
                        users@[i]@,
                    )
            },
            Err(_) => r == Err::<Vec<PublicUser>, ServiceError>(ServiceError::Storage),
        },
{
    let users = match rows {
        Ok(users) => users,
        Err(_) => { return Err(ServiceError::Storage); },
    };
    let ghost all = users@;
    let mut profiles: Vec<PublicUser> = Vec::new();
    for user in it: users.into_iter()
        invariant
            it.seq() == all,
            profiles@.len() == it.index(),
            forall|j: int|
                0 <= j < profiles@.len() ==> (#[trigger] profiles@[j])@ == public_profile(all[j]@),
    {
        profiles.push(PublicUser::from(user));
    }
    Ok(profiles)
}

} // verus!
