//! Logging in: checking a password against its stored digest, and recognising
//! the session cookies that a successful login hands out.
use vstd::prelude::*;

use crypto::digest::Digest;
use crypto::sha2::Sha256;

use crate::routes::{Endpoint, FlashKind, FlashMessage};

verus! {

/// The SHA-256 digest of the UTF-8 bytes of a text, written as lowercase
/// hexadecimal, as rust-crypto's `Sha256` with `input_str` and `result_str`
/// produces it.
pub uninterp spec fn sha256_hex(input: Seq<char>) -> Seq<char>;

/// Whether a character is a lowercase hexadecimal digit.
pub open spec fn is_lower_hex(c: char) -> bool {
    ('0' <= c && c <= '9') || ('a' <= c && c <= 'f')
}

/// Whether a text has the shape of a hex-encoded SHA-256 digest: 64
/// lowercase hexadecimal digits.
pub open spec fn is_hex_digest(s: Seq<char>) -> bool {
    s.len() == 64 && forall|i: int| 0 <= i < s.len() ==> is_lower_hex(#[trigger] s[i])
}

/// Hashes a text with rust-crypto's `crypto::sha2::Sha256` (`new`, then
/// `Digest::input_str`, then `Digest::result_str`). Trusted: the result is the
/// digest named by `sha256_hex` of the text, and it is 64 lowercase
/// hexadecimal digits (`result_str` hex-encodes the 32 bytes of the digest, two
/// characters each, from `0123456789abcdef`).
#[verifier::external_body]
pub(crate) fn sha256sum(s: String) -> (r: String)
    ensures
        r@ == sha256_hex(s@),
        is_hex_digest(r@),
{
    let mut hasher = Sha256::new();
    hasher.input_str(s.as_str());
    hasher.result_str()
}

/// The session id of a logged-in user: the digest of the user name followed
/// by the stored digest of the user's password.
pub open spec fn session_id_for(username: Seq<char>, password_digest: Seq<char>) -> Seq<char> {
    sha256_hex(username + password_digest)
}

/// Whether a session id is that of the user named, given the password digest
/// stored for that user.
pub open spec fn session_accepted(username: Seq<char>, session_id: Seq<char>, stored_password: Seq<char>) -> bool {
    session_id == session_id_for(username, stored_password)
}

/// The session id that logging in with `password` hands out, where the digest
/// of `password` is the stored one; `None` where it is not.
pub open spec fn login_session(username: Seq<char>, password: Seq<char>, stored_password: Seq<char>) -> Option<Seq<char>> {
    if sha256_hex(password) == stored_password {
        Some(session_id_for(username, sha256_hex(password)))
    } else {
        None
    }
}

/// A user whose session cookies are valid, by user name.
#[derive(Debug)]
pub struct User(pub String);

/// The value of a cookie, or the empty text where the request has none.
pub fn cookie_or_empty(cookie: Option<String>) -> (v: String)
    ensures
        v@ == (match cookie {
            Some(c) => c@,
            None => Seq::<char>::empty(),
        }),
{
    match cookie {
        Some(c) => c,
        None => String::new(),
    }
}

impl User {
    /// The user that a request's cookies name, if its session id matches the
    /// password digest stored for that user.
    pub fn from_session(username: String, session_id: String, stored_password: String) -> (r: Option<User>)
        ensures
            r is Some <==> session_accepted(username@, session_id@, stored_password@),
            r is Some <==> session_id@ == sha256_hex(username@ + stored_password@),
            r matches Some(u) ==> u.0@ == username@,
    {
        let joined = username.clone().concat(stored_password.as_str());
        let current = sha256sum(joined);
        if session_id == current {
            Some(User(username))
        } else {
            None
        }
    }
}

/// What a login attempt leads to.
#[derive(Debug)]
pub enum LoginOutcome {
    /// The password matched: the cookies to set are the user name and the
    /// session id.
    Success { username_cookie: String, session_id: String },
    /// The password did not match.
    Invalid,
}

/// Checks a login: the digest of the given password must equal the stored
/// digest; then the session id is the digest of the user name followed by it.
pub fn check_login(username: &str, password: &str, stored_password: &str) -> (r: LoginOutcome)
    ensures
        r is Invalid <==> login_session(username@, password@, stored_password@) is None,
        r is Success <==> sha256_hex(password@) == stored_password@,
        r matches LoginOutcome::Success { username_cookie, session_id } ==> {
            &&& username_cookie@ == username@
            &&& login_session(username@, password@, stored_password@) == Some(session_id@)
            &&& is_hex_digest(session_id@)
            &&& session_id@ == sha256_hex(username@ + sha256_hex(password@))
        },
{
    let sha_login_pass = sha256sum(crate::text::owned(password));
    let userinfo = sha256sum(crate::text::owned(username).concat(sha_login_pass.as_str()));
    if crate::text::str_eq(sha_login_pass.as_str(), stored_password) {
        LoginOutcome::Success { username_cookie: crate::text::owned(username), session_id: userinfo }
    } else {
        LoginOutcome::Invalid
    }
}

impl LoginOutcome {
    /// The message shown after the attempt.
    pub fn flash(&self) -> (r: FlashMessage)
        ensures
            self is Success ==> r.kind == FlashKind::Success && r.text@ == "Successful login"@,
            self is Invalid ==> r.kind == FlashKind::Error && r.text@ == "Invalid user/pass"@,
    {
        match self {
            LoginOutcome::Success { .. } => FlashMessage { kind: FlashKind::Success, text: "Successful login" },
            LoginOutcome::Invalid => FlashMessage { kind: FlashKind::Error, text: "Invalid user/pass" },
        }
    }
}

/// The endpoints of logging in.
pub fn stage() -> (r: Vec<Endpoint>)
    ensures
        r@ == seq![Endpoint::LoginPage, Endpoint::PostLogin],
{
    vec![Endpoint::LoginPage, Endpoint::PostLogin]
}

/// The session cookie that a successful login sets is recognised as that
/// user's session, as long as the stored password digest is unchanged.
pub proof fn lemma_login_session_is_recognised(
    username: Seq<char>,
    password: Seq<char>,
    stored_password: Seq<char>,
)
    ensures
        login_session(username, password, stored_password) matches Some(session_id) ==> session_accepted(
            username,
            session_id,
            stored_password,
        ),
{
}

} // verus!
