use std::time::{Duration, UNIX_EPOCH};

use webshop::config::{i18n, lang_to_store, Config};
use webshop::context::Context;
use webshop::login::{check_login, cookie_or_empty, LoginOutcome, User};
use webshop::models;
use webshop::numeral::{format_i32, format_u128, parse_i32};
use webshop::routes::{Endpoint, FlashKind, Method};
use webshop::session::Session;
use webshop::signup::{signup_submit, Signup, SignupError, SignupErrorKind, SignupField, SignupOutcome};
use webshop::store::{basket_cookie, basket_is_readable, basket_product_ids, check_new_item};
use webshop::text::{contains_char, str_eq, strip_prefix};

const SECRET1_DIGEST: &str = "5b11618c2e44027877d0cd0921ed166b9f176f50587fc91e7534dd2946db77d6";
const ALICE_SESSION: &str = "74e1dec4805f763b515583a8bd801220b67b19ea91fc6aa54e8823af08614d4e";

#[test]
fn lang_defaults_to_persian_without_cookie() {
    assert_eq!(Config::from_lang_cookie(None).0, "fa");
}

#[test]
fn lang_cookie_fa_is_persian() {
    assert_eq!(Config::from_lang_cookie(Some("fa")).0, "fa");
}

#[test]
fn lang_cookie_other_is_english() {
    assert_eq!(Config::from_lang_cookie(Some("de")).0, "en");
    assert_eq!(Config::from_lang_cookie(Some("en")).0, "en");
    assert_eq!(Config::from_lang_cookie(Some("")).0, "en");
}

#[test]
fn stored_lang_is_served() {
    for requested in ["fa", "en", "fr", "FA", ""] {
        let stored = lang_to_store(requested);
        assert_eq!(Config::from_lang_cookie(Some(stored)).0, stored);
    }
    assert_eq!(lang_to_store("fa"), "fa");
    assert_eq!(lang_to_store("xx"), "en");
}

#[test]
fn i18n_sets_lang_and_direction() {
    let mut ctx = Context::new();
    ctx.insert("dir", "old".to_string());
    i18n(Config("fa".to_string()), &mut ctx);
    assert_eq!(ctx.get("lang").unwrap(), "fa");
    assert_eq!(ctx.get("dir").unwrap(), "rtl");
    i18n(Config("en".to_string()), &mut ctx);
    assert_eq!(ctx.get("lang").unwrap(), "en");
    assert_eq!(ctx.get("dir").unwrap(), "ltr");
    assert_eq!(ctx.entries().len(), 2);
}

#[test]
fn context_insert_replaces_and_get_reads_back() {
    let mut ctx = Context::new();
    assert!(ctx.get("a").is_none());
    ctx.insert("a", "1".to_string());
    ctx.insert("b", "2".to_string());
    ctx.insert("a", "3".to_string());
    assert_eq!(ctx.get("a").unwrap(), "3");
    assert_eq!(ctx.get("b").unwrap(), "2");
    assert!(ctx.get("c").is_none());
    assert_eq!(ctx.entries().len(), 2);
}

#[test]
fn format_numbers() {
    assert_eq!(format_i32(0), "0");
    assert_eq!(format_i32(7), "7");
    assert_eq!(format_i32(-45), "-45");
    assert_eq!(format_i32(i32::MAX), "2147483647");
    assert_eq!(format_i32(i32::MIN), "-2147483648");
    assert_eq!(format_u128(1000), "1000");
    assert_eq!(format_u128(u128::MAX), u128::MAX.to_string());
}

#[test]
fn parse_numbers_as_std_does() {
    for s in ["0", "12", "+7", "-45", "007", "2147483647", "-2147483648", "", "-", "+", "12a",
        " 1", "2147483648", "-2147483649", "99999999999", "--1", "+-1", "١"] {
        assert_eq!(parse_i32(s), s.parse::<i32>().ok(), "{}", s);
    }
}

#[test]
fn numbers_round_trip() {
    for n in [0, 1, -1, 42, -42, 1000, i32::MAX, i32::MIN] {
        assert_eq!(parse_i32(&format_i32(n)), Some(n));
    }
}

#[test]
fn text_helpers() {
    assert!(str_eq("abc", "abc"));
    assert!(!str_eq("abc", "abd"));
    assert!(contains_char("a@b", '@'));
    assert!(!contains_char("ab", '@'));
    assert_eq!(strip_prefix("prefix_rest", "prefix_"), Some("rest"));
    assert_eq!(strip_prefix("pre", "prefix_"), None);
    assert_eq!(strip_prefix("ünï", "ü"), Some("nï"));
}

#[test]
fn login_with_right_password() {
    match check_login("alice", "secret1", SECRET1_DIGEST) {
        LoginOutcome::Success { username_cookie, session_id } => {
            assert_eq!(username_cookie, "alice");
            assert_eq!(session_id, ALICE_SESSION);
        }
        LoginOutcome::Invalid => panic!("login refused"),
    }
}

#[test]
fn login_with_wrong_password_is_refused() {
    let outcome = check_login("alice", "secret2", SECRET1_DIGEST);
    assert!(matches!(outcome, LoginOutcome::Invalid));
    let flash = outcome.flash();
    assert_eq!(flash.kind, FlashKind::Error);
    assert_eq!(flash.text, "Invalid user/pass");
}

#[test]
fn login_success_flash() {
    let flash = check_login("alice", "secret1", SECRET1_DIGEST).flash();
    assert_eq!(flash.kind, FlashKind::Success);
    assert_eq!(flash.text, "Successful login");
}

#[test]
fn login_session_is_recognised() {
    let session_id = match check_login("alice", "secret1", SECRET1_DIGEST) {
        LoginOutcome::Success { session_id, .. } => session_id,
        LoginOutcome::Invalid => panic!("login refused"),
    };
    let user = User::from_session("alice".to_string(), session_id, SECRET1_DIGEST.to_string());
    assert_eq!(user.unwrap().0, "alice");
}

#[test]
fn forged_session_is_refused() {
    assert!(User::from_session("alice".to_string(), "forged".to_string(), SECRET1_DIGEST.to_string()).is_none());
    assert!(User::from_session("bob".to_string(), ALICE_SESSION.to_string(), SECRET1_DIGEST.to_string()).is_none());
    assert!(User::from_session(String::new(), String::new(), String::new()).is_none());
}

#[test]
fn cookie_defaults_to_empty() {
    assert_eq!(cookie_or_empty(None), "");
    assert_eq!(cookie_or_empty(Some("x".to_string())), "x");
}

#[test]
fn valid_signup_creates_user_with_password_digest() {
    match signup_submit("alice", "secret1", "secret1", "alice@example.org", UNIX_EPOCH) {
        SignupOutcome::Created(user) => {
            assert_eq!(user.id, None);
            assert_eq!(user.username, "alice");
            assert_eq!(user.password, SECRET1_DIGEST);
            assert_eq!(user.email, "alice@example.org");
            assert_eq!(user.role, "");
        }
        SignupOutcome::Rejected(errors) => panic!("refused: {:?}", errors),
    }
}

#[test]
fn signup_outcome_pages() {
    assert_eq!(signup_submit("alice", "secret1", "secret1", "a@b", UNIX_EPOCH).page(), "index");
    assert_eq!(signup_submit("al", "secret1", "secret1", "a@b", UNIX_EPOCH).page(), "signup");
}

#[test]
fn signed_up_user_logs_in() {
    let user = match signup_submit("alice", "secret1", "secret1", "alice@example.org", UNIX_EPOCH) {
        SignupOutcome::Created(user) => user,
        SignupOutcome::Rejected(_) => panic!("refused"),
    };
    let session_id = match check_login("alice", "secret1", &user.password) {
        LoginOutcome::Success { session_id, .. } => session_id,
        LoginOutcome::Invalid => panic!("login refused"),
    };
    assert!(User::from_session(user.username.clone(), session_id, user.password.clone()).is_some());
}

fn err(field: SignupField, kind: SignupErrorKind) -> SignupError {
    SignupError { field, kind }
}

#[test]
fn signup_reports_every_broken_rule_in_order() {
    let errors = Signup::from_fields("bob", "abc", "abd", "bob.example.org").unwrap_err();
    assert_eq!(errors, vec![
        err(SignupField::PasswordFirst, SignupErrorKind::InvalidLength { min: 6, max: 19 }),
        err(SignupField::PasswordFirst, SignupErrorKind::Mismatch),
        err(SignupField::PasswordSecond, SignupErrorKind::Mismatch),
        err(SignupField::Username, SignupErrorKind::InvalidLength { min: 4, max: 29 }),
        err(SignupField::Email, SignupErrorKind::InvalidEmail),
    ]);
}

#[test]
fn signup_length_bounds() {
    assert!(Signup::from_fields("abcd", "123456", "123456", "@").is_ok());
    assert!(Signup::from_fields(&"a".repeat(29), &"1".repeat(19), &"1".repeat(19), "x@y").is_ok());
    assert_eq!(
        Signup::from_fields(&"a".repeat(30), &"1".repeat(20), &"1".repeat(20), "x@y").unwrap_err(),
        vec![
            err(SignupField::PasswordFirst, SignupErrorKind::InvalidLength { min: 6, max: 19 }),
            err(SignupField::Username, SignupErrorKind::InvalidLength { min: 4, max: 29 }),
        ]
    );
    // Lengths count bytes: "éé" is four bytes long.
    assert!(Signup::from_fields("éé", "123456", "123456", "x@y").is_ok());
}

#[test]
fn signup_password_mismatch_only() {
    assert_eq!(
        Signup::from_fields("alice", "secret1", "secret2", "a@b").unwrap_err(),
        vec![
            err(SignupField::PasswordFirst, SignupErrorKind::Mismatch),
            err(SignupField::PasswordSecond, SignupErrorKind::Mismatch),
        ]
    );
}

#[test]
fn signup_keeps_fields() {
    let s = Signup::from_fields("alice", "secret1", "secret1", "a@b").unwrap();
    assert_eq!(s.username, "alice");
    assert_eq!(s.password.first, "secret1");
    assert_eq!(s.email, "a@b");
    let user = models::User::new(&s);
    assert_eq!(user.password, SECRET1_DIGEST);
}

#[test]
fn session_cookie_is_kept() {
    assert_eq!(Session::from_request_parts(Some("abc".to_string()), None, None).0, "abc");
}

#[test]
fn fresh_session_from_address_and_time() {
    assert_eq!(
        Session::from_request_parts(None, None, None).0,
        "137274968fb7ae3c8b17ebd6c29a98197f1e93ea98d1e4c0efe2119bf1c83435"
    );
    assert_eq!(
        Session::from_request_parts(Some("none".to_string()), Some("10.0.0.7".to_string()), Some(1700000000123)).0,
        "c1bd535884120ca576043052236cee8a013afd00a1c8d73381c6732b2082493f"
    );
}

#[test]
fn session_id_fed_back_is_the_same() {
    let fresh = Session::from_request_parts(None, Some("10.0.0.7".to_string()), Some(5)).0;
    let again = Session::from_request_parts(Some(fresh.clone()), Some("1.2.3.4".to_string()), Some(6)).0;
    assert_eq!(fresh, again);
}

#[test]
fn new_item_name_needs_three_bytes() {
    let ok = check_new_item("tea");
    assert_eq!(ok.kind, FlashKind::Success);
    assert_eq!(ok.text, "Added Item");
    let bad = check_new_item("te");
    assert_eq!(bad.kind, FlashKind::Error);
    assert_eq!(bad.text, "Wrong field values!");
    assert_eq!(check_new_item("é").kind, FlashKind::Error);
    assert_eq!(check_new_item("éa").kind, FlashKind::Success);
}

#[test]
fn basket_cookie_names_product() {
    assert_eq!(basket_cookie(7, 3), ("product_in_basket___7".to_string(), "3".to_string()));
    assert_eq!(basket_cookie(-2, -1), ("product_in_basket___-2".to_string(), "-1".to_string()));
}

#[test]
fn basket_reads_product_ids() {
    let names: Vec<String> = ["lang", "product_in_basket___7", "product_in_basket___", "product_in_basket___-2", "x"]
        .iter().map(|s| s.to_string()).collect();
    assert!(basket_is_readable(&names));
    assert_eq!(basket_product_ids(&names), vec![7, -2]);
    assert_eq!(basket_product_ids(&Vec::new()), Vec::<i32>::new());
}

#[test]
fn basket_with_unreadable_id() {
    let names = vec!["product_in_basket___7".to_string(), "product_in_basket___x".to_string()];
    assert!(!basket_is_readable(&names));
    assert!(!basket_is_readable(&vec!["product_in_basket___abc".to_string()]));
    assert!(basket_is_readable(&vec!["product_in_basket___007".to_string()]));
}

#[test]
fn basket_round_trip() {
    let ids = [5, 0, -9, i32::MAX, i32::MIN];
    let names: Vec<String> = ids.iter().map(|&id| basket_cookie(id, 1).0).collect();
    assert_eq!(basket_product_ids(&names), ids.to_vec());
}

#[test]
fn stages_list_endpoints() {
    assert_eq!(webshop::config::stage(), vec![Endpoint::SetLang]);
    assert_eq!(webshop::login::stage(), vec![Endpoint::LoginPage, Endpoint::PostLogin]);
    assert_eq!(webshop::signup::stage(), vec![Endpoint::Signup, Endpoint::SignupSubmit]);
    assert_eq!(webshop::store::stage().len(), 8);
    assert_eq!(webshop::store::stage()[4], Endpoint::PublicStoreListItems);
}

#[test]
fn endpoint_table() {
    assert_eq!(Endpoint::PostLogin.method(), Method::Post);
    assert_eq!(Endpoint::LoginPage.method(), Method::Get);
    assert_eq!(Endpoint::AddToBasket.path(), "/add_to_basket/<product_id>/<number>");
    assert_eq!(Endpoint::PublicStoreListItems.rank(), Some(2));
    assert_eq!(Endpoint::StoreListItems.rank(), None);
}

#[test]
fn user_joined_at_given_time() {
    let s = Signup::from_fields("alice", "password", "password", "a@b.c").unwrap();
    let t = UNIX_EPOCH + Duration::from_secs(1_700_000_000);
    let user = models::User::joined_at(&s, t);
    assert_eq!(user.id, None);
    assert_eq!(user.username, "alice");
    assert_eq!(user.password, "5e884898da28047151d0e56f8dc6292773603d0d6aabbdd62a11ef721d1542d8");
    assert_eq!(user.email, "a@b.c");
    assert_eq!(user.joined, t);
    assert_eq!(user.role, "");
}

#[test]
fn signup_submit_joins_at_given_time() {
    let t = UNIX_EPOCH + Duration::from_secs(42);
    match signup_submit("alice", "password", "password", "a@b.c", t) {
        SignupOutcome::Created(user) => {
            assert_eq!(user.joined, t);
            assert!(user.password.chars().all(|c| c.is_ascii_digit() || ('a'..='f').contains(&c)));
            assert_eq!(user.password.len(), 64);
        }
        SignupOutcome::Rejected(errors) => panic!("refused: {:?}", errors),
    }
}

#[test]
fn basket_in_mixed_jar() {
    let names = vec![
        "lang".to_string(),
        basket_cookie(12, 1).0,
        "username_cookie".to_string(),
        "session-id".to_string(),
        "product_in_basket___".to_string(),
        basket_cookie(-3, 2).0,
    ];
    assert!(basket_is_readable(&names));
    let ids = basket_product_ids(&names);
    assert!(ids.contains(&12));
    assert!(ids.contains(&-3));
    assert_eq!(ids, vec![12, -3]);
}
