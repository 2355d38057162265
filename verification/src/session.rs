//! The anonymous visitor session: the id a visitor's `custom_session` cookie
//! carries, or a fresh one made from the visitor's address and the time.
use vstd::prelude::*;

use crate::login::{is_hex_digest, sha256_hex, sha256sum};
use crate::numeral::{digits_of, format_u128, lemma_digits_of};
use crate::text::str_eq;

verus! {

/// A visitor session, by id.
#[derive(Debug)]
pub struct Session(pub String);

/// The session id of a request: the value of its `custom_session` cookie,
/// unless there is none or it reads `none`; then the digest of the client
/// address (`0.0.0.0` where it is unknown) followed by the milliseconds since
/// the Unix epoch (1000 where the clock reads before the epoch).
pub open spec fn session_id_of(
    cookie: Option<Seq<char>>,
    client_ip: Option<Seq<char>>,
    since_epoch_millis: Option<u128>,
) -> Seq<char> {
    let value = match cookie {
        Some(c) => c,
        None => "none"@,
    };
    if value == "none"@ {
        let ip = match client_ip {
            Some(a) => a,
            None => "0.0.0.0"@,
        };
        let millis = match since_epoch_millis {
            Some(m) => m,
            None => 1000u128,
        };
        sha256_hex(ip + digits_of(millis as nat))
    } else {
        value
    }
}

/// Whether a request with this `custom_session` cookie gets a freshly made
/// session id: it has no such cookie, or the cookie reads `none`.
pub open spec fn makes_fresh_id(cookie: Option<Seq<char>>) -> bool {
    match cookie {
        Some(c) => c == "none"@,
        None => true,
    }
}

/// The view of an optional owned text.
pub open spec fn opt_view(s: Option<String>) -> Option<Seq<char>> {
    match s {
        Some(v) => Some(v@),
        None => None,
    }
}

impl Session {
    /// The session of a request, from its `custom_session` cookie, its client
    /// address and the time.
    pub fn from_request_parts(
        cookie: Option<String>,
        client_ip: Option<String>,
        since_epoch_millis: Option<u128>,
    ) -> (r: Session)
        ensures
            r.0@ == session_id_of(opt_view(cookie), opt_view(client_ip), since_epoch_millis),
            r.0@ != "none"@,
            makes_fresh_id(opt_view(cookie)) ==> is_hex_digest(r.0@),
            (cookie is Some && cookie->0@ != "none"@) ==> r.0@ == cookie->0@,
            (cookie is None || cookie->0@ == "none"@) ==> r.0@ == sha256_hex(
                (if client_ip is Some {
                    client_ip->0@
                } else {
                    "0.0.0.0"@
                }) + digits_of(
                    (if since_epoch_millis is Some {
                        since_epoch_millis->0
                    } else {
                        1000u128
                    }) as nat,
                ),
            ),
    {
        proof {
            reveal_strlit("none");
        }
        let value = match cookie {
            Some(c) => c,
            None => "none".to_string(),
        };
        if str_eq(value.as_str(), "none") {
            let ip = match client_ip {
                Some(a) => a,
                None => "0.0.0.0".to_string(),
            };
            let millis = match since_epoch_millis {
                Some(m) => m,
                None => 1000,
            };
            let digest = sha256sum(ip.concat(format_u128(millis).as_str()));
            Session(digest)
        } else {
            Session(value)
        }
    }
}

/// A session id that a request's cookie carries is kept as it is: feeding the
/// id of a session back as the cookie gives the same session, whatever the
/// address and time.
pub proof fn lemma_session_id_is_kept(
    id: Seq<char>,
    client_ip: Option<Seq<char>>,
    since_epoch_millis: Option<u128>,
)
    requires
        id != "none"@,
    ensures
        session_id_of(Some(id), client_ip, since_epoch_millis) == id,
{
}

/// A request without a `custom_session` cookie gets the same session as one
/// whose cookie reads `none`.
pub proof fn lemma_missing_cookie_is_none(client_ip: Option<Seq<char>>, since_epoch_millis: Option<u128>)
    ensures
        session_id_of(None, client_ip, since_epoch_millis) == session_id_of(
            Some("none"@),
            client_ip,
            since_epoch_millis,
        ),
{
}

/// A fresh session id is the digest of the client address followed by the
/// decimal milliseconds that the clock reads, whenever both are known.
pub proof fn lemma_fresh_id_from_address_and_clock(ip: Seq<char>, millis: u128)
    ensures
        session_id_of(None, Some(ip), Some(millis)) == sha256_hex(ip + digits_of(millis as nat)),
        session_id_of(Some("none"@), Some(ip), Some(millis)) == sha256_hex(ip + digits_of(millis as nat)),
{
}

/// Two fresh sessions from one address at different clock readings are made
/// from different texts: the time is part of what is hashed.
pub proof fn lemma_fresh_id_input_depends_on_clock(ip: Seq<char>, t1: u128, t2: u128)
    requires
        t1 != t2,
    ensures
        ip + digits_of(t1 as nat) != ip + digits_of(t2 as nat),
{
    lemma_digits_of(t1 as nat);
    lemma_digits_of(t2 as nat);
    if ip + digits_of(t1 as nat) == ip + digits_of(t2 as nat) {
        assert((ip + digits_of(t1 as nat)).skip(ip.len() as int) =~= digits_of(t1 as nat));
        assert((ip + digits_of(t2 as nat)).skip(ip.len() as int) =~= digits_of(t2 as nat));
    }
}

} // verus!
