//! Signing up: the rules a sign-up form must meet, and the user it creates.
use vstd::prelude::*;

use std::time::SystemTime;

use crate::login::{is_hex_digest, login_session, session_accepted, session_id_for, sha256_hex};
use crate::models::User;
use crate::routes::Endpoint;
use crate::text::{contains_char, str_eq};

verus! {

/// The password fields of the sign-up form: the password and its repetition.
#[derive(Debug, Clone, Copy)]
pub struct Password<'r> {
    pub first: &'r str,
    pub second: &'r str,
}

/// A sign-up form that meets the rules.
#[derive(Debug, Clone, Copy)]
pub struct Signup<'r> {
    pub username: &'r str,
    pub password: Password<'r>,
    pub email: &'r str,
}

/// A field of the sign-up form.
#[derive(Debug, Clone, Copy, PartialEq, Eq, Structural)]
pub enum SignupField {
    Username,
    PasswordFirst,
    PasswordSecond,
    Email,
}

/// How a field breaks the rules.
#[derive(Debug, Clone, Copy, PartialEq, Eq, Structural)]
pub enum SignupErrorKind {
    /// Its length in bytes is not between `min` and `max`, both included.
    InvalidLength { min: u64, max: u64 },
    /// The two password fields differ.
    Mismatch,
    /// The e-mail address has no `@`.
    InvalidEmail,
}

/// A broken rule, with the field that breaks it.
#[derive(Debug, Clone, Copy, PartialEq, Eq, Structural)]
pub struct SignupError {
    pub field: SignupField,
    pub kind: SignupErrorKind,
}

/// The error for `field`, where `ok` does not hold.
pub open spec fn check(ok: bool, field: SignupField, kind: SignupErrorKind) -> Seq<SignupError> {
    if ok {
        seq![]
    } else {
        seq![SignupError { field, kind }]
    }
}

/// The rules of the sign-up form and the order their errors are reported in:
/// the password is 6 to 19 bytes long and both password fields agree (each
/// field reports a difference), the user name is 4 to 29 bytes long, and the
/// e-mail address holds an `@`.
pub open spec fn signup_errors(username: &str, first: &str, second: &str, email: &str) -> Seq<
    SignupError,
> {
    check(6 <= first.len() && first.len() < 20, SignupField::PasswordFirst,
        SignupErrorKind::InvalidLength { min: 6, max: 19 },
    ) + check(first@ == second@, SignupField::PasswordFirst, SignupErrorKind::Mismatch) + check(
        second@ == first@,
        SignupField::PasswordSecond,
        SignupErrorKind::Mismatch,
    ) + check(4 <= username.len() && username.len() < 30, SignupField::Username,
        SignupErrorKind::InvalidLength { min: 4, max: 29 },
    ) + check(email@.contains('@'), SignupField::Email, SignupErrorKind::InvalidEmail)
}

fn check_exec(ok: bool, field: SignupField, kind: SignupErrorKind, errors: &mut Vec<SignupError>)
    ensures
        final(errors)@ == old(errors)@ + check(ok, field, kind),
{
    if !ok {
        errors.push(SignupError { field, kind });
    }
    assert(errors@ =~= old(errors)@ + check(ok, field, kind));
}

proof fn lemma_check_contains(ok: bool, field: SignupField, kind: SignupErrorKind, e: SignupError)
    ensures
        check(ok, field, kind).contains(e) <==> (!ok && e == SignupError { field, kind }),
{
    if !ok {
        assert(check(ok, field, kind)[0] == SignupError { field, kind });
    }
}

/// A sign-up form is accepted exactly when it meets every rule: a password of
/// 6 to 19 bytes, repeated exactly, a user name of 4 to 29 bytes, and an
/// e-mail address holding an `@`.
pub proof fn lemma_signup_rules(username: &str, first: &str, second: &str, email: &str)
    ensures
        signup_errors(username, first, second, email).len() == 0 <==> (6 <= first.len()
            && first.len() < 20 && first@ == second@ && 4 <= username.len() && username.len() < 30
            && email@.contains('@')),
{
}

/// Each error is reported exactly when its rule is broken: the password length
/// when it is not 6 to 19 bytes, a mismatch on each password field exactly when
/// the two texts differ, the user name length when it is not 4 to 29 bytes, and
/// the e-mail address when it holds no `@`.
pub proof fn lemma_signup_errors_reported(
    username: &str,
    first: &str,
    second: &str,
    email: &str,
    e: SignupError,
)
    ensures
        signup_errors(username, first, second, email).contains(e) <==> {
            ||| (e == SignupError {
                field: SignupField::PasswordFirst,
                kind: SignupErrorKind::InvalidLength { min: 6, max: 19 },
            } && !(6 <= first.len() && first.len() < 20))
            ||| (e == SignupError { field: SignupField::PasswordFirst, kind: SignupErrorKind::Mismatch }
                && first@ != second@)
            ||| (e == SignupError { field: SignupField::PasswordSecond, kind: SignupErrorKind::Mismatch }
                && first@ != second@)
            ||| (e == SignupError {
                field: SignupField::Username,
                kind: SignupErrorKind::InvalidLength { min: 4, max: 29 },
            } && !(4 <= username.len() && username.len() < 30))
            ||| (e == SignupError { field: SignupField::Email, kind: SignupErrorKind::InvalidEmail }
                && !email@.contains('@'))
        },
{
    broadcast use vstd::seq_lib::lemma_seq_concat_contains_all_elements;

    let a = check(6 <= first.len() && first.len() < 20, SignupField::PasswordFirst,
        SignupErrorKind::InvalidLength { min: 6, max: 19 });
    let b = check(first@ == second@, SignupField::PasswordFirst, SignupErrorKind::Mismatch);
    let c = check(second@ == first@, SignupField::PasswordSecond, SignupErrorKind::Mismatch);
    let d = check(4 <= username.len() && username.len() < 30, SignupField::Username,
        SignupErrorKind::InvalidLength { min: 4, max: 29 });
    let f = check(email@.contains('@'), SignupField::Email, SignupErrorKind::InvalidEmail);
    lemma_check_contains(6 <= first.len() && first.len() < 20, SignupField::PasswordFirst,
        SignupErrorKind::InvalidLength { min: 6, max: 19 }, e);
    lemma_check_contains(first@ == second@, SignupField::PasswordFirst, SignupErrorKind::Mismatch, e);
    lemma_check_contains(second@ == first@, SignupField::PasswordSecond, SignupErrorKind::Mismatch, e);
    lemma_check_contains(4 <= username.len() && username.len() < 30, SignupField::Username,
        SignupErrorKind::InvalidLength { min: 4, max: 29 }, e);
    lemma_check_contains(email@.contains('@'), SignupField::Email, SignupErrorKind::InvalidEmail, e);
    assert(signup_errors(username, first, second, email) == a + b + c + d + f);
}

impl<'r> Signup<'r> {
    /// Checks the fields of a sign-up form against the rules; the form when it
    /// meets all of them, else every error, in order.
    pub fn from_fields(username: &'r str, first: &'r str, second: &'r str, email: &'r str) -> (r:
        Result<Signup<'r>, Vec<SignupError>>)
        ensures
            r is Ok <==> signup_errors(username, first, second, email).len() == 0,
            r is Ok <==> (6 <= first.len() && first.len() < 20 && first@ == second@ && 4 <= username.len()
                && username.len() < 30 && email@.contains('@')),
            r matches Err(errors) ==> (errors@.contains(
                SignupError { field: SignupField::PasswordFirst, kind: SignupErrorKind::Mismatch },
            ) <==> first@ != second@),
            r matches Err(errors) ==> (errors@.contains(
                SignupError { field: SignupField::PasswordSecond, kind: SignupErrorKind::Mismatch },
            ) <==> first@ != second@),
            r matches Err(errors) ==> (errors@.contains(
                SignupError { field: SignupField::Email, kind: SignupErrorKind::InvalidEmail },
            ) <==> !email@.contains('@')),
            r matches Err(errors) ==> (errors@.contains(
                SignupError {
                    field: SignupField::PasswordFirst,
                    kind: SignupErrorKind::InvalidLength { min: 6, max: 19 },
                },
            ) <==> !(6 <= first.len() && first.len() < 20)),
            r matches Err(errors) ==> (errors@.contains(
                SignupError {
                    field: SignupField::Username,
                    kind: SignupErrorKind::InvalidLength { min: 4, max: 29 },
                },
            ) <==> !(4 <= username.len() && username.len() < 30)),
            r matches Ok(s) ==> {
                &&& s.username == username
                &&& s.password.first == first
                &&& s.password.second == second
                &&& s.email == email
            },
            r matches Err(errors) ==> errors@ == signup_errors(username, first, second, email),
    {
        let mut errors: Vec<SignupError> = Vec::new();
        let first_len = first.len();
        check_exec(
            6 <= first_len && first_len < 20,
            SignupField::PasswordFirst,
            SignupErrorKind::InvalidLength { min: 6, max: 19 },
            &mut errors,
        );
        let same = str_eq(first, second);
        check_exec(same, SignupField::PasswordFirst, SignupErrorKind::Mismatch, &mut errors);
        check_exec(same, SignupField::PasswordSecond, SignupErrorKind::Mismatch, &mut errors);
        let username_len = username.len();
        check_exec(
            4 <= username_len && username_len < 30,
            SignupField::Username,
            SignupErrorKind::InvalidLength { min: 4, max: 29 },
            &mut errors,
        );
        check_exec(contains_char(email, '@'), SignupField::Email, SignupErrorKind::InvalidEmail, &mut errors);
        assert(errors@ =~= signup_errors(username, first, second, email));
        proof {
            lemma_signup_rules(username, first, second, email);
            lemma_signup_errors_reported(username, first, second, email,
                SignupError { field: SignupField::PasswordFirst, kind: SignupErrorKind::Mismatch });
            lemma_signup_errors_reported(username, first, second, email,
                SignupError { field: SignupField::PasswordSecond, kind: SignupErrorKind::Mismatch });
            lemma_signup_errors_reported(username, first, second, email,
                SignupError { field: SignupField::Email, kind: SignupErrorKind::InvalidEmail });
            lemma_signup_errors_reported(username, first, second, email, SignupError {
                field: SignupField::PasswordFirst,
                kind: SignupErrorKind::InvalidLength { min: 6, max: 19 },
            });
            lemma_signup_errors_reported(username, first, second, email, SignupError {
                field: SignupField::Username,
                kind: SignupErrorKind::InvalidLength { min: 4, max: 29 },
            });
        }
        if errors.len() == 0 {
            Ok(Signup { username, password: Password { first, second }, email })
        } else {
            Err(errors)
        }
    }
}

/// What submitting the sign-up form leads to.
#[derive(Debug)]
pub enum SignupOutcome {
    /// The form met the rules: the user to store.
    Created(User),
    /// The form broke the rules, as listed.
    Rejected(Vec<SignupError>),
}

/// Handles a submitted sign-up form at the time `joined`: a new user, joined
/// then, where the form meets the rules, else its errors.
pub fn signup_submit(username: &str, first: &str, second: &str, email: &str, joined: SystemTime) -> (r:
    SignupOutcome)
    ensures
        r is Created <==> signup_errors(username, first, second, email).len() == 0,
        r is Created <==> (6 <= first.len() && first.len() < 20 && first@ == second@ && 4 <= username.len()
            && username.len() < 30 && email@.contains('@')),
        r matches SignupOutcome::Created(u) ==> {
            &&& u.id is None
            &&& u.username@ == username@
            &&& u.password@ == sha256_hex(first@)
            &&& is_hex_digest(u.password@)
            &&& u.joined == joined
            &&& u.email@ == email@
            &&& u.role@ == Seq::<char>::empty()
        },
        r matches SignupOutcome::Rejected(errors) ==> errors@ == signup_errors(
            username,
            first,
            second,
            email,
        ),
{
    proof {
        lemma_signup_rules(username, first, second, email);
    }
    match Signup::from_fields(username, first, second, email) {
        Ok(s) => SignupOutcome::Created(User::joined_at(&s, joined)),
        Err(errors) => SignupOutcome::Rejected(errors),
    }
}

impl SignupOutcome {
    /// The page rendered after the submission: the start page for a new user,
    /// the sign-up page again otherwise.
    pub fn page(&self) -> (r: &'static str)
        ensures
            self is Created ==> r@ == "index"@,
            self is Rejected ==> r@ == "signup"@,
    {
        match self {
            SignupOutcome::Created(_) => "index",
            SignupOutcome::Rejected(_) => "signup",
        }
    }
}

/// The endpoints of signing up.
pub fn stage() -> (r: Vec<Endpoint>)
    ensures
        r@ == seq![Endpoint::Signup, Endpoint::SignupSubmit],
{
    vec![Endpoint::Signup, Endpoint::SignupSubmit]
}

/// A user who signed up logs in with the password chosen at sign-up (whose
/// digest is what the new user stores), and the session that this login
/// hands out is recognised.
pub proof fn lemma_signed_up_user_logs_in(username: Seq<char>, password: Seq<char>)
    ensures
        login_session(username, password, sha256_hex(password)) == Some(
            session_id_for(username, sha256_hex(password)),
        ),
        session_accepted(username, session_id_for(username, sha256_hex(password)), sha256_hex(password)),
{
}

} // verus!
