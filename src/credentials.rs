use vstd::prelude::*;

use argon2::password_hash::rand_core::OsRng;
use argon2::password_hash::SaltString;
use argon2::{PasswordHasher, PasswordVerifier};

use crate::error::AppError;
use crate::model::User;
use crate::text::{ascii_lower, normalize_email, same_text};

verus! {

/// Whether Argon2 (default parameters) accepts `password` against the PHC
/// hash string `phc`: the string parses and the hash recomputed with its own
/// salt and parameters equals the one it holds.
pub uninterp spec fn argon2_accepts(password: Seq<char>, phc: Seq<char>) -> bool;

/// Relies on `argon2::PasswordHash::new` and `PasswordVerifier::verify_password`
/// of `Argon2::default()`: a hash string that does not parse, or a password
/// whose recomputed hash differs, is refused.
#[verifier::external_body]
fn password_accepted(password: &str, phc: &str) -> (r: bool)
    ensures
        r == argon2_accepts(password@, phc@),
{
    match argon2::PasswordHash::new(phc) {
        Ok(parsed) => argon2::Argon2::default().verify_password(password.as_bytes(), &parsed).is_ok(),
        Err(_) => false,
    }
}

/// Relies on `PasswordHasher::hash_password` of `Argon2::default()`, with a
/// fresh salt from `SaltString::generate(&mut OsRng)`: the PHC string it
/// returns records that salt and those parameters, so verifying the same
/// password against it recomputes the same hash. With the default parameters
/// and a 16-byte salt it fails only for a password over `MAX_PWD_LEN`
/// (0xFFFF_FFFF) bytes, which a text of at most 0x3FFF_FFFF characters
/// (at most four UTF-8 bytes each) never is.
#[verifier::external_body]
fn hash_password(password: &str) -> (r: Result<String, String>)
    ensures
        r matches Ok(phc) ==> argon2_accepts(password@, phc@),
        password@.len() <= 0x3FFF_FFFF ==> r is Ok,
{
    let salt = SaltString::generate(&mut OsRng);
    argon2::Argon2::default()
        .hash_password(password.as_bytes(), &salt)
        .map(|hash| hash.to_string())
        .map_err(|e| e.to_string())
}

/// Relies on `uuid::Uuid::new_v4` and its hyphenated `to_string`: a random id.
#[verifier::external_body]
fn new_user_id() -> (r: String) {
    uuid::Uuid::new_v4().to_string()
}

/// `u` is what registering `email`, `password` and `username` stores: the
/// email in ASCII lower case, the username as given, and a hash that the
/// password verifies against.
pub open spec fn registered(u: User, email: Seq<char>, password: Seq<char>, username: Seq<char>) -> bool {
    &&& u.email@ == ascii_lower(email)
    &&& u.username@ == username
    &&& argon2_accepts(password, u.password@)
}

/// The record to store for a new user, once the store has answered whether
/// the email is taken and the hasher has run.
pub fn user_record(id: String, email: &str, username: String, hashed: Result<String, String>) -> (r: Result<User, AppError>)
    ensures
        hashed matches Ok(phc) ==> (r matches Ok(u) && u.id == id && u.email@ == ascii_lower(email@)
            && u.password == phc && u.username == username),
        hashed matches Err(detail) ==> r == Err::<User, AppError>(AppError::StorageError(detail)),
{
    match hashed {
        Ok(phc) => Ok(User { id, email: normalize_email(email), password: phc, username }),
        Err(detail) => Err(AppError::StorageError(detail)),
    }
}

/// Prepares the registration of a user. `email_taken` is the store's answer
/// to whether a user with this email (in ASCII lower case) exists, or the
/// store's failure. The returned record still has to be persisted.
pub fn create_user(
    email: String,
    password: String,
    username: String,
    email_taken: Result<bool, String>,
) -> (r: Result<User, AppError>)
    ensures
        email_taken matches Err(detail) ==> r == Err::<User, AppError>(AppError::StorageError(detail)),
        email_taken == Ok::<bool, String>(true) ==> r == Err::<User, AppError>(AppError::DuplicateEmail),
        email_taken == Ok::<bool, String>(false) ==> match r {
            Ok(u) => registered(u, email@, password@, username@),
            Err(e) => e is StorageError,
        },
        email_taken == Ok::<bool, String>(false) && password@.len() <= 0x3FFF_FFFF ==> r is Ok,
{
    match email_taken {
        Err(detail) => Err(AppError::StorageError(detail)),
        Ok(true) => Err(AppError::DuplicateEmail),
        Ok(false) => {
            let hashed = hash_password(password.as_str());
            let id = new_user_id();
            user_record(id, email.as_str(), username, hashed)
        },
    }
}

/// The outcome of a login attempt with `email` and `password`, given what the
/// store found under that email (in ASCII lower case).
pub open spec fn login_outcome(
    email: Seq<char>,
    password: Seq<char>,
    found: Result<Option<User>, String>,
) -> Result<User, AppError> {
    match found {
        Err(detail) => Err(AppError::StorageError(detail)),
        Ok(None) => Err(AppError::InvalidCredentials),
        Ok(Some(u)) => if u.email@ == ascii_lower(email) && argon2_accepts(password, u.password@) {
            Ok(u)
        } else {
            Err(AppError::InvalidCredentials)
        },
    }
}

/// Checks a login. An unknown email and a wrong password give the same
/// error, so that a caller cannot tell which of the two was wrong.
pub fn check_email_password(email: &str, password: &str, found: Result<Option<User>, String>) -> (r: Result<User, AppError>)
    ensures
        r == login_outcome(email@, password@, found),
{
    match found {
        Err(detail) => Err(AppError::StorageError(detail)),
        Ok(None) => Err(AppError::InvalidCredentials),
        Ok(Some(u)) => {
            let key = normalize_email(email);
            if same_text(u.email.as_str(), key.as_str()) && password_accepted(password, u.password.as_str()) {
                Ok(u)
            } else {
                Err(AppError::InvalidCredentials)
            }
        },
    }
}

/// A user that registration stored logs in with the same email and password:
/// the login returns that user, whose email and username match.
pub proof fn lemma_register_then_login(u: User, email: Seq<char>, password: Seq<char>, username: Seq<char>)
    requires
        registered(u, email, password, username),
    ensures
        login_outcome(email, password, Ok(Some(u))) == Ok::<User, AppError>(u),
        u.email@ == ascii_lower(email),
        u.username@ == username,
{
}

/// For a registered user, a password that the stored hash refuses gives the
/// same error as an email that is not registered at all.
pub proof fn lemma_wrong_password_as_unknown_email(u: User, email: Seq<char>, password: Seq<char>)
    requires
        u.email@ == ascii_lower(email),
        !argon2_accepts(password, u.password@),
    ensures
        login_outcome(email, password, Ok(Some(u))) == login_outcome(email, password, Ok(None)),
        login_outcome(email, password, Ok(None)) == Err::<User, AppError>(AppError::InvalidCredentials),
{
}

} // verus!
