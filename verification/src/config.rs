//! The interface language: which one a visitor has chosen, and what the page
//! templates need to know of it.
use vstd::prelude::*;

use crate::context::Context;
use crate::routes::Endpoint;
use crate::text::str_eq;

verus! {

/// The language a request is served in: `"fa"` or `"en"`.
#[derive(Debug)]
pub struct Config(pub String);

/// The language that is stored for a requested one: Persian for `"fa"`,
/// English for anything else.
pub open spec fn chosen_lang(requested: Seq<char>) -> Seq<char> {
    if requested == "fa"@ {
        "fa"@
    } else {
        "en"@
    }
}

/// The language of a request, from its `lang` cookie: Persian when there is
/// no cookie, else the language that the cookie's value chooses.
pub open spec fn lang_of_cookie(cookie: Option<Seq<char>>) -> Seq<char> {
    match cookie {
        Some(v) => chosen_lang(v),
        None => "fa"@,
    }
}

/// The text direction of a language: right to left for Persian.
pub open spec fn text_direction(lang: Seq<char>) -> Seq<char> {
    if lang == "fa"@ {
        "rtl"@
    } else {
        "ltr"@
    }
}

impl Config {
    /// The language of a request, given the value of its `lang` cookie.
    pub fn from_lang_cookie(cookie: Option<&str>) -> (r: Config)
        ensures
            r.0@ == lang_of_cookie(
                match cookie {
                    Some(c) => Some(c@),
                    None => None,
                },
            ),
            cookie is None ==> r.0@ == "fa"@,
            cookie is Some && cookie->0@ == "fa"@ ==> r.0@ == "fa"@,
            cookie is Some && cookie->0@ != "fa"@ ==> r.0@ == "en"@,
    {
        match cookie {
            Some(v) => Config(lang_to_store(v).to_string()),
            None => Config("fa".to_string()),
        }
    }
}

/// The value the `lang` cookie is set to when a visitor asks for `requested`.
pub fn lang_to_store(requested: &str) -> (r: &'static str)
    ensures
        r@ == chosen_lang(requested@),
        requested@ == "fa"@ ==> r@ == "fa"@,
        requested@ != "fa"@ ==> r@ == "en"@,
{
    if str_eq(requested, "fa") {
        "fa"
    } else {
        "en"
    }
}

/// Puts the language and its text direction into a template context, under
/// `lang` and `dir`.
pub fn i18n(config: Config, ctx: &mut Context)
    ensures
        final(ctx)@ == old(ctx)@.insert("lang"@, config.0@).insert("dir"@, text_direction(config.0@)),
        final(ctx)@ == old(ctx)@.insert("lang"@, config.0@).insert(
            "dir"@,
            if config.0@ == "fa"@ {
                "rtl"@
            } else {
                "ltr"@
            },
        ),
{
    ctx.insert("lang", config.0.clone());
    if str_eq(config.0.as_str(), "fa") {
        ctx.insert("dir", "rtl".to_string());
    } else {
        ctx.insert("dir", "ltr".to_string());
    }
}

/// The endpoints of the language settings.
pub fn stage() -> (r: Vec<Endpoint>)
    ensures
        r@ == seq![Endpoint::SetLang],
{
    vec![Endpoint::SetLang]
}

/// A language once stored in the cookie is the language the next request is
/// served in.
pub proof fn lemma_stored_lang_is_served(requested: Seq<char>)
    ensures
        lang_of_cookie(Some(chosen_lang(requested))) == chosen_lang(requested),
{
    reveal_strlit("fa");
    reveal_strlit("en");
    assert("fa"@ != "en"@) by {
        assert("fa"@[0] != "en"@[0]);
    }
}

/// Every request is served in Persian or in English.
pub proof fn lemma_lang_is_fa_or_en(cookie: Option<Seq<char>>)
    ensures
        lang_of_cookie(cookie) == "fa"@ || lang_of_cookie(cookie) == "en"@,
{
}

} // verus!
