//! The authentication orchestrator: registration sequences validation, the
//! uniqueness pre-check, password hashing, the atomic insert and token
//! issuance; login sequences the presence check, lookup, password
//! verification and token issuance. Every failure is one kind of a closed
//! error set, mapped totally onto a status code and an error body.

use vstd::prelude::*;
use vstd::utf8::encode_utf8;

use crate::domain::{Claims, CreateUser, FindUser, User, TOKEN_VALIDITY_SECS};
use crate::errors::ApiErrorResponse;
use crate::hasher::{digest_matches, digest_well_formed, hash_password, verify_password};
use crate::store::{StoreError, UserStore};
use crate::token::{issue_token, spec_token};
use crate::validate::{
    field_errors_for, login_field_errors, login_present, valid_create_user, FieldErrors,
};

verus! {

/// Everything that can go wrong answering a request.
#[derive(Debug, PartialEq, Eq)]
pub enum ApiError {
    /// Validation rejected the input; reported as 400 with per-field reasons.
    BadClientData(FieldErrors),
    /// The username or email is already registered; reported as 409.
    UserAlreadyRegistered,
    /// No user with that username exists; reported as 406.
    UserNotFound,
    /// Wrong username or password; reported as 406.
    BadCredentials,
    /// Hashing or verification failed internally; reported as 500.
    HashError,
    /// The repository failed internally; reported as 500.
    DbInternalError,
    /// Token encoding failed; reported as 500.
    JWTEncoding,
}

/// The payload of a successful registration or login.
#[derive(Clone, Debug)]
pub struct ApiResponse {
    pub token: String,
    pub user: User,
}

impl ApiError {
    /// The status code and body each error kind is reported with. Internal
    /// errors carry no body: no detail leaks to the client.
    pub fn into_response(self) -> (r: (u16, Option<ApiErrorResponse>))
        ensures
            match self {
                ApiError::BadClientData(fe) => r.0 == 400 && (r.1 matches Some(b) && b.message@
                    == "error validating fields"@ && (b.error matches Some(o) && o.fields == Some(
                    fe,
                ))),
                ApiError::UserAlreadyRegistered => r.0 == 409 && (r.1 matches Some(b) && b.message@
                    == "user already registered"@ && b.error is None),
                ApiError::UserNotFound => r.0 == 406 && (r.1 matches Some(b) && b.message@
                    == "user not found"@ && b.error is None),
                ApiError::BadCredentials => r.0 == 406 && (r.1 matches Some(b) && b.message@
                    == "bad credentials"@ && b.error is None),
                ApiError::HashError | ApiError::DbInternalError | ApiError::JWTEncoding => r.0
                    == 500 && r.1 is None,
            },
    {
        match self {
            ApiError::UserNotFound => (406, Some(ApiErrorResponse::from("user not found"))),
            ApiError::UserAlreadyRegistered => (
                409,
                Some(ApiErrorResponse::from("user already registered")),
            ),
            ApiError::BadClientData(fe) => (400, Some(ApiErrorResponse::from_field_errors(fe))),
            ApiError::HashError | ApiError::DbInternalError | ApiError::JWTEncoding => (
                500,
                None,
            ),
            ApiError::BadCredentials => (406, Some(ApiErrorResponse::from("bad credentials"))),
        }
    }
}

/// Everything registration guarantees, relating the store before and after
/// the call to the input and the outcome:
/// - invalid input is answered with the field errors, and nothing changes;
/// - a taken username or email is answered `user already registered`, and
///   nothing changes;
/// - on success the store gains exactly the one new row, whose digest
///   verifies against the registered password, and the token is the signed
///   claims of the fresh id, valid from `now` for four hours;
/// - internal failures change nothing.
pub open spec fn register_outcome(
    pre: UserStore,
    post: UserStore,
    input: CreateUser,
    now: i64,
    secret: Seq<char>,
    r: Result<ApiResponse, ApiError>,
) -> bool {
    &&& match r {
        Ok(resp) => {
            &&& valid_create_user(input)
            &&& !pre.taken(input.username@, input.email@)
            &&& post@ == pre@.push(resp.user)
            &&& resp.user.username@ == input.username@
            &&& resp.user.email@ == input.email@
            &&& digest_matches(encode_utf8(input.password@), resp.user.password_hash@)
            &&& digest_well_formed(resp.user.password_hash@)
            &&& resp.user.created_at == now
            &&& resp.user.updated_at == now
            &&& !pre.contains_id(resp.user.id@)
            &&& resp.user.id@.len() == 36
            &&& resp.token@ == spec_token(resp.user.id@, now, (now + TOKEN_VALIDITY_SECS) as i64, secret)
            &&& resp.token@.len() > 0
        },
        Err(ApiError::BadClientData(fe)) => !valid_create_user(input) && field_errors_for(
            input,
            fe,
        ) && post@ == pre@,
        Err(ApiError::UserAlreadyRegistered) => valid_create_user(input) && pre.taken(
            input.username@,
            input.email@,
        ) && post@ == pre@,
        Err(ApiError::HashError) => valid_create_user(input) && !pre.taken(
            input.username@,
            input.email@,
        ) && post@ == pre@,
        Err(ApiError::DbInternalError) => valid_create_user(input) && !pre.taken(
            input.username@,
            input.email@,
        ) && post@ == pre@,
        _ => false,
    }
    &&& (!valid_create_user(input) ==> r matches Err(ApiError::BadClientData(_)))
    &&& (valid_create_user(input) && pre.taken(input.username@, input.email@) ==> r == Result::<
        ApiResponse,
        ApiError,
    >::Err(ApiError::UserAlreadyRegistered))
}

/// Registers a new account: validate, pre-check uniqueness, hash the
/// password, insert atomically, issue a token.
pub fn register_handler(
    store: &mut UserStore,
    user_input: CreateUser,
    now: i64,
    jwt_secret: &str,
) -> (r: Result<ApiResponse, ApiError>)
    requires
        old(store).wf(),
        now <= i64::MAX - TOKEN_VALIDITY_SECS,
    ensures
        final(store).wf(),
        register_outcome(*old(store), *final(store), user_input, now, jwt_secret@, r),
{
    match user_input.validate() {
        Ok(_) => (),
        Err(fe) => {
            return Err(ApiError::BadClientData(fe));
        },
    }
    // The fast-path existence check: the atomic insert below stays the
    // authority on uniqueness.
    let count = store.user_exists_by_username_or_email(
        user_input.username.as_str(),
        user_input.email.as_str(),
    );
    if count != 0 {
        return Err(ApiError::UserAlreadyRegistered);
    }
    let hashed_password = match hash_password(user_input.password.as_str().as_bytes()) {
        Ok(h) => h,
        Err(_) => {
            return Err(ApiError::HashError);
        },
    };
    let user_input = CreateUser {
        username: user_input.username,
        email: user_input.email,
        password: hashed_password,
    };
    let user = match store.create_user(user_input, now) {
        Ok(u) => u,
        Err(StoreError::UniqueViolation) => {
            // A row took the name between pre-check and insert: answered as
            // already registered, not as an internal error.
            return Err(ApiError::UserAlreadyRegistered);
        },
        Err(StoreError::IdConflict) => {
            return Err(ApiError::DbInternalError);
        },
    };
    let claims = Claims::new(user.id.clone(), now);
    let token = issue_token(&claims, jwt_secret);
    Ok(ApiResponse { token, user })
}

/// Everything login guarantees:
/// - a request with an empty field is answered with the field errors;
/// - an unknown username and a wrong password are both answered
///   `bad credentials`, revealing nothing about which it was;
/// - with the stored digest well-formed, a matching password is owed a token
///   signed for the stored user's id.
pub open spec fn login_outcome(
    store: UserStore,
    input: FindUser,
    now: i64,
    secret: Seq<char>,
    r: Result<ApiResponse, ApiError>,
) -> bool {
    &&& match r {
        Ok(resp) => {
            &&& login_present(input)
            &&& store.spec_find(input.username@) == Some(resp.user)
            &&& digest_matches(encode_utf8(input.password@), resp.user.password_hash@)
            &&& resp.token@ == spec_token(resp.user.id@, now, (now + TOKEN_VALIDITY_SECS) as i64, secret)
            &&& resp.token@.len() > 0
        },
        Err(ApiError::BadClientData(fe)) => !login_present(input) && login_field_errors(input, fe),
        Err(ApiError::BadCredentials) => login_present(input) && match store.spec_find(
            input.username@,
        ) {
            None => true,
            Some(u) => !digest_matches(encode_utf8(input.password@), u.password_hash@),
        },
        Err(ApiError::HashError) => login_present(input) && (store.spec_find(input.username@)
            matches Some(u) && !digest_well_formed(u.password_hash@)),
        _ => false,
    }
    &&& (!login_present(input) ==> r matches Err(ApiError::BadClientData(_)))
    &&& (login_present(input) ==> match store.spec_find(input.username@) {
        None => r == Result::<ApiResponse, ApiError>::Err(ApiError::BadCredentials),
        Some(u) => {
            &&& (digest_well_formed(u.password_hash@) && digest_matches(
                encode_utf8(input.password@),
                u.password_hash@,
            ) ==> r is Ok)
            &&& (digest_well_formed(u.password_hash@) && !digest_matches(
                encode_utf8(input.password@),
                u.password_hash@,
            ) ==> r == Result::<ApiResponse, ApiError>::Err(ApiError::BadCredentials))
        },
    })
}

/// Logs a user in: check presence, look the username up, verify the
/// password against the stored digest, issue a token.
pub fn login_handler(store: &UserStore, login_input: FindUser, now: i64, jwt_secret: &str) -> (r:
    Result<ApiResponse, ApiError>)
    requires
        store.wf(),
        now <= i64::MAX - TOKEN_VALIDITY_SECS,
    ensures
        login_outcome(*store, login_input, now, jwt_secret@, r),
{
    match login_input.validate() {
        Ok(_) => (),
        Err(fe) => {
            return Err(ApiError::BadClientData(fe));
        },
    }
    let user = match store.find_user_by_username(login_input.username.as_str()) {
        Some(u) => u,
        None => {
            return Err(ApiError::BadCredentials);
        },
    };
    let is_match = match verify_password(
        login_input.password.as_str().as_bytes(),
        user.password_hash.as_str(),
    ) {
        Ok(m) => m,
        Err(_) => {
            return Err(ApiError::HashError);
        },
    };
    if !is_match {
        return Err(ApiError::BadCredentials);
    }
    let claims = Claims::new(user.id.clone(), now);
    let token = issue_token(&claims, jwt_secret);
    Ok(ApiResponse { token, user })
}

/// A successful registration is enough to log in: against the store as
/// registration left it, a login with the registered username is owed a token
/// when it carries the registered password, and is answered `bad credentials`
/// when it carries one that does not verify.
pub proof fn lemma_login_after_registration(
    pre: UserStore,
    post: UserStore,
    input: CreateUser,
    now: i64,
    secret: Seq<char>,
    r: Result<ApiResponse, ApiError>,
    login_input: FindUser,
    login_now: i64,
    login_secret: Seq<char>,
    login_r: Result<ApiResponse, ApiError>,
)
    requires
        post.wf(),
        register_outcome(pre, post, input, now, secret, r),
        r is Ok,
        login_outcome(post, login_input, login_now, login_secret, login_r),
        login_input.username@ == input.username@,
        login_input.password@.len() > 0,
    ensures
        login_input.password@ == input.password@ ==> login_r is Ok,
        !digest_matches(encode_utf8(login_input.password@), r->Ok_0.user.password_hash@)
            ==> login_r == Result::<ApiResponse, ApiError>::Err(ApiError::BadCredentials),
{
    let user = r->Ok_0.user;
    let fresh = pre@.len() as int;
    assert(post@[fresh] == user);
    assert(post.contains_username(login_input.username@));
    let k = choose|i: int|
        0 <= i < post@.len() && (#[trigger] post@[i]).username@ == login_input.username@;
    if k != fresh {
        assert(post@[k] == pre@[k]);
        assert(pre.contains_username(input.username@));
        assert(false);
    }
    assert(post.spec_find(login_input.username@) == Some(user));
    assert(valid_create_user(input));
    assert(login_present(login_input));
}

/// In a well-formed store no two distinct rows share a username or an email:
/// at most one row can ever match a given credential pair.
pub proof fn lemma_unique_rows(s: UserStore, i: int, j: int)
    requires
        s.wf(),
        0 <= i < s@.len(),
        0 <= j < s@.len(),
        i != j,
    ensures
        s@[i].username@ != s@[j].username@,
        s@[i].email@ != s@[j].email@,
{
}

/// A username that some row uses keeps being used through any registration
/// step: rows are only ever added.
proof fn lemma_username_persists(
    pre: UserStore,
    post: UserStore,
    input: CreateUser,
    now: i64,
    secret: Seq<char>,
    r: Result<ApiResponse, ApiError>,
    username: Seq<char>,
)
    requires
        register_outcome(pre, post, input, now, secret, r),
        pre.contains_username(username),
    ensures
        post.contains_username(username),
{
    let w = choose|k: int| 0 <= k < pre@.len() && (#[trigger] pre@[k]).username@ == username;
    assert(post@[w].username@ == username);
}

/// An email that some row uses keeps being used through any registration
/// step.
proof fn lemma_email_persists(
    pre: UserStore,
    post: UserStore,
    input: CreateUser,
    now: i64,
    secret: Seq<char>,
    r: Result<ApiResponse, ApiError>,
    email: Seq<char>,
)
    requires
        register_outcome(pre, post, input, now, secret, r),
        pre.contains_email(email),
    ensures
        post.contains_email(email),
{
    let w = choose|k: int| 0 <= k < pre@.len() && (#[trigger] pre@[k]).email@ == email;
    assert(post@[w].email@ == email);
}

/// Once a registration for a username (or email) has succeeded, every later
/// valid attempt at the same username or email — whatever other registrations
/// run in between — is answered `user already registered` and leaves the
/// store unchanged. In particular, of any number of identical registration
/// requests, at most one succeeds.
pub proof fn lemma_single_winner(
    stores: Seq<UserStore>,
    inputs: Seq<CreateUser>,
    nows: Seq<i64>,
    secrets: Seq<Seq<char>>,
    results: Seq<Result<ApiResponse, ApiError>>,
    i: int,
    j: int,
)
    requires
        stores.len() == results.len() + 1,
        inputs.len() == results.len(),
        nows.len() == results.len(),
        secrets.len() == results.len(),
        forall|k: int|
            0 <= k < results.len() ==> register_outcome(
                #[trigger] stores[k],
                stores[k + 1],
                inputs[k],
                nows[k],
                secrets[k],
                results[k],
            ),
        0 <= i < j < results.len(),
        results[i] is Ok,
        inputs[j].username@ == inputs[i].username@ || inputs[j].email@ == inputs[i].email@,
        valid_create_user(inputs[j]),
    ensures
        results[j] == Result::<ApiResponse, ApiError>::Err(ApiError::UserAlreadyRegistered),
        stores[j + 1]@ == stores[j]@,
    decreases j,
{
    let resp = results[i]->Ok_0;
    assert(register_outcome(stores[i], stores[i + 1], inputs[i], nows[i], secrets[i], results[i]));
    assert(stores[i + 1]@[stores[i]@.len() as int] == resp.user);
    assert(stores[i + 1].contains_username(inputs[i].username@));
    assert(stores[i + 1].contains_email(inputs[i].email@));
    lemma_taken_persists(stores, inputs, nows, secrets, results, i + 1, j, inputs[i].username@,
        inputs[i].email@);
    assert(stores[j].taken(inputs[j].username@, inputs[j].email@));
    assert(register_outcome(stores[j], stores[j + 1], inputs[j], nows[j], secrets[j], results[j]));
}

/// Both the username and the email of a registered row stay in use through
/// any run of registration steps.
proof fn lemma_taken_persists(
    stores: Seq<UserStore>,
    inputs: Seq<CreateUser>,
    nows: Seq<i64>,
    secrets: Seq<Seq<char>>,
    results: Seq<Result<ApiResponse, ApiError>>,
    from: int,
    to: int,
    username: Seq<char>,
    email: Seq<char>,
)
    requires
        stores.len() == results.len() + 1,
        inputs.len() == results.len(),
        nows.len() == results.len(),
        secrets.len() == results.len(),
        forall|k: int|
            0 <= k < results.len() ==> register_outcome(
                #[trigger] stores[k],
                stores[k + 1],
                inputs[k],
                nows[k],
                secrets[k],
                results[k],
            ),
        0 <= from <= to <= results.len(),
        stores[from].contains_username(username),
        stores[from].contains_email(email),
    ensures
        stores[to].contains_username(username),
        stores[to].contains_email(email),
    decreases to - from,
{
    if from < to {
        lemma_username_persists(
            stores[from],
            stores[from + 1],
            inputs[from],
            nows[from],
            secrets[from],
            results[from],
            username,
        );
        lemma_email_persists(
            stores[from],
            stores[from + 1],
            inputs[from],
            nows[from],
            secrets[from],
            results[from],
            email,
        );
        lemma_taken_persists(stores, inputs, nows, secrets, results, from + 1, to, username, email);
    }
}

} // verus!
