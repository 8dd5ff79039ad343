//! Passwords and session tokens: the check of a login against the stored
//! password hash, and the digest under which a token is stored.

use sha2::Digest;
use vstd::prelude::*;
use vstd::utf8::encode_utf8;

verus! {

/// The SHA-256 digest of `data`. Stands for what `sha2::Sha256` computes
/// through `sha2::Digest::digest`.
pub uninterp spec fn sha256(data: Seq<u8>) -> Seq<u8>;

/// Whether `password` goes with the bcrypt hash `hash`, or the message of
/// the error where `hash` is no bcrypt hash. Stands for what
/// `bcrypt::verify` computes.
pub uninterp spec fn bcrypt_verdict(password: Seq<char>, hash: Seq<char>) -> Result<
    bool,
    Seq<char>,
>;

/// Computes the SHA-256 digest of `data` with `sha2::Digest::digest` of
/// `sha2::Sha256`. The contract names the outcome and claims no more than
/// that it is a function of the data.
#[verifier::external_body]
fn sha256_digest(data: &[u8]) -> (r: Vec<u8>)
    ensures
        r@ == sha256(data@),
{
    sha2::Sha256::digest(data).to_vec()
}

/// Calls `bcrypt::verify`. An error comes back as its message. The
/// contract names the outcome and claims no more than that it is a
/// function of the two texts.
#[verifier::external_body]
fn bcrypt_verify(password: &str, hash: &str) -> (r: Result<bool, String>)
    ensures
        match bcrypt_verdict(password@, hash@) {
            Ok(matches) => r == Ok::<bool, String>(matches),
            Err(message) => r matches Err(m) && m@ == message,
        },
{
    match bcrypt::verify(password, hash) {
        Ok(matches) => Ok(matches),
        Err(error) => Err(error.to_string()),
    }
}

/// The lower-case hexadecimal digit of a value below sixteen.
pub open spec fn hex_digit(value: u8) -> char {
    if value < 10 {
        ((48 + value) as u8) as char
    } else {
        ((87 + value) as u8) as char
    }
}

/// Two lower-case hexadecimal digits for each byte, in order.
pub open spec fn hex_encoded(bytes: Seq<u8>) -> Seq<char> {
    Seq::new(
        2 * bytes.len(),
        |i: int| if i % 2 == 0 {
            hex_digit(bytes[i / 2] / 16)
        } else {
            hex_digit(bytes[i / 2] % 16)
        },
    )
}

fn hex_digit_of(value: u8) -> (r: char)
    requires
        value < 16,
    ensures
        r == hex_digit(value),
{
    if value < 10 {
        (48u8 + value) as char
    } else {
        (87u8 + value) as char
    }
}

/// Writes bytes as lower-case hexadecimal digits.
pub fn hex_encode(bytes: &[u8]) -> (r: String)
    ensures
        r@ == hex_encoded(bytes@),
{
    let mut out = String::new();
    let mut i: usize = 0;
    while i < bytes.len()
        invariant
            i <= bytes.len(),
            out@ == hex_encoded(bytes@.take(i as int)),
        decreases bytes.len() - i,
    {
        let b = bytes[i];
        let ghost before = out@;
        out.push(hex_digit_of(b / 16));
        out.push(hex_digit_of(b % 16));
        proof {
            let next = bytes@.take(i + 1);
            assert(next[i as int] == b);
            assert(out@ =~= hex_encoded(next)) by {
                assert(out@ == before.push(hex_digit(b / 16)).push(hex_digit(b % 16)));
                assert forall|k: int| 0 <= k < 2 * (i + 1) implies out@[k] == hex_encoded(
                    next,
                )[k] by {
                    if k < 2 * i {
                        assert(next[k / 2] == bytes@.take(i as int)[k / 2]);
                    }
                }
            }
        }
        i = i + 1;
    }
    proof {
        assert(bytes@.take(i as int) == bytes@);
    }
    out
}

/// The text under which a session token is stored: the SHA-256 digest of
/// its UTF-8 bytes in lower-case hexadecimal digits.
pub open spec fn token_digest(token: Seq<char>) -> Seq<char> {
    hex_encoded(sha256(encode_utf8(token)))
}

/// Computes the text under which a session token is stored.
pub fn hash_token(token: &str) -> (r: String)
    ensures
        r@ == token_digest(token@),
{
    let digest = sha256_digest(token.as_bytes());
    hex_encode(digest.as_slice())
}

/// Why a login is refused.
#[derive(Debug, Clone)]
pub enum LoginFailure {
    /// The user's account is disabled.
    AccountDisabled,
    /// The password does not go with the stored hash.
    InvalidCredentials,
    /// The stored hash could not be checked; the message says why.
    VerificationFailed(String),
}

/// The verdict on a login, given the outcome of the password check: a
/// disabled account is refused whatever the password; else a failed check
/// is reported, a password that does not match is refused, and one that
/// matches is accepted.
pub open spec fn login_verdict(is_active: bool, outcome: Result<bool, Seq<char>>) -> Result<
    (),
    Seq<char>,
> {
    if !is_active {
        Err("User account is disabled"@)
    } else {
        match outcome {
            Err(message) => Err("Password verification failed: "@ + message),
            Ok(false) => Err("Invalid username or password"@),
            Ok(true) => Ok(()),
        }
    }
}

impl LoginFailure {
    /// The message of the refusal.
    pub open spec fn message(&self) -> Seq<char> {
        match self {
            LoginFailure::AccountDisabled => "User account is disabled"@,
            LoginFailure::InvalidCredentials => "Invalid username or password"@,
            LoginFailure::VerificationFailed(m) => "Password verification failed: "@ + m@,
        }
    }

    /// True for the refusals that are the caller's fault and answer with
    /// status 401; a failed check is the server's.
    pub fn is_unauthorized(&self) -> (r: bool)
        ensures
            r == !(self is VerificationFailed),
    {
        match self {
            LoginFailure::VerificationFailed(_) => false,
            _ => true,
        }
    }
}

/// Judges a login from the state of the account and the outcome of the
/// password check.
pub fn judge_login(is_active: bool, outcome: Result<bool, String>) -> (r: Result<(), LoginFailure>)
    ensures
        r == (if !is_active {
            Err::<(), LoginFailure>(LoginFailure::AccountDisabled)
        } else {
            match outcome {
                Err(m) => Err(LoginFailure::VerificationFailed(m)),
                Ok(false) => Err(LoginFailure::InvalidCredentials),
                Ok(true) => Ok(()),
            }
        }),
{
    if !is_active {
        return Err(LoginFailure::AccountDisabled);
    }
    match outcome {
        Err(m) => Err(LoginFailure::VerificationFailed(m)),
        Ok(false) => Err(LoginFailure::InvalidCredentials),
        Ok(true) => Ok(()),
    }
}

/// Checks a login: the account must be active and the password must go
/// with the stored bcrypt hash.
pub fn check_credentials(is_active: bool, password: &str, password_hash: &str) -> (r: Result<
    (),
    LoginFailure,
>)
    ensures
        match login_verdict(is_active, bcrypt_verdict(password@, password_hash@)) {
            Ok(_) => r is Ok,
            Err(message) => r matches Err(failure) && failure.message() == message,
        },
        !is_active ==> r == Err::<(), LoginFailure>(LoginFailure::AccountDisabled),
{
    if !is_active {
        return Err(LoginFailure::AccountDisabled);
    }
    let outcome = bcrypt_verify(password, password_hash);
    judge_login(is_active, outcome)
}

/// Checks the old password of a change of password against the stored
/// bcrypt hash.
pub fn check_old_password(old_password: &str, password_hash: &str) -> (r: Result<(), LoginFailure>)
    ensures
        match bcrypt_verdict(old_password@, password_hash@) {
            Ok(true) => r is Ok,
            Ok(false) => r == Err::<(), LoginFailure>(LoginFailure::InvalidCredentials),
            Err(message) => r matches Err(LoginFailure::VerificationFailed(m)) && m@ == message,
        },
{
    let outcome = bcrypt_verify(old_password, password_hash);
    judge_login(true, outcome)
}

} // verus!
