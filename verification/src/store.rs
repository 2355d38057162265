//! The shop: which new products are accepted, and the basket that a visitor's
//! cookies hold.
use vstd::prelude::*;

use crate::numeral::{decimal_of, format_i32, lemma_digits_of, lemma_parse_decimal, parse_i32, parse_i32_spec};
use crate::routes::{Endpoint, FlashKind, FlashMessage};
use crate::text::{has_prefix, strip_prefix};

verus! {

/// Checks the name of a product to add: it must be at least 3 bytes long.
/// The message says whether the product was added.
pub fn check_new_item(product_name: &str) -> (r: FlashMessage)
    ensures
        r.kind == FlashKind::Success <==> product_name.len() >= 3,
        r.kind == FlashKind::Success ==> r.text@ == "Added Item"@,
        r.kind == FlashKind::Error ==> r.text@ == "Wrong field values!"@,
{
    if product_name.len() >= 3 {
        FlashMessage { kind: FlashKind::Success, text: "Added Item" }
    } else {
        FlashMessage { kind: FlashKind::Error, text: "Wrong field values!" }
    }
}

/// The start of the name of every basket cookie.
pub open spec fn basket_prefix() -> Seq<char> {
    "product_in_basket___"@
}

/// The name of the basket cookie of a product.
pub open spec fn basket_cookie_name(product_id: i32) -> Seq<char> {
    basket_prefix() + decimal_of(product_id as int)
}

/// The basket cookie that records `number` pieces of a product: its name
/// holds the product id, its value the number.
pub fn basket_cookie(product_id: i32, number: i32) -> (r: (String, String))
    ensures
        r.0@ == basket_cookie_name(product_id),
        r.0@ == "product_in_basket___"@ + decimal_of(product_id as int),
        r.1@ == decimal_of(number as int),
{
    let name = "product_in_basket___".to_string().concat(format_i32(product_id).as_str());
    (name, format_i32(number))
}

/// What a cookie name says of the basket: `Some(Some(id))` for the cookie of
/// a product, `Some(None)` for a cookie of something else, `None` where the
/// name has the basket prefix but no readable id after it.
pub open spec fn basket_entry(name: Seq<char>) -> Option<Option<i32>> {
    let id = if has_prefix(name, basket_prefix()) {
        name.skip(basket_prefix().len() as int)
    } else {
        Seq::<char>::empty()
    };
    if id.len() == 0 {
        Some(None)
    } else {
        match parse_i32_spec(id) {
            Some(n) => Some(Some(n)),
            None => None,
        }
    }
}

/// The product ids in the basket, in the order of the cookie names; `None`
/// where some basket cookie has no readable id.
pub open spec fn basket_ids(names: Seq<Seq<char>>) -> Option<Seq<i32>>
    decreases names.len(),
{
    if names.len() == 0 {
        Some(Seq::empty())
    } else {
        match basket_ids(names.drop_last()) {
            None => None,
            Some(ids) => match basket_entry(names.last()) {
                None => None,
                Some(None) => Some(ids),
                Some(Some(n)) => Some(ids.push(n)),
            },
        }
    }
}

proof fn lemma_basket_ids_unreadable_prefix(names: Seq<Seq<char>>, k: int)
    requires
        0 <= k <= names.len(),
        basket_ids(names.take(k)) is None,
    ensures
        basket_ids(names) is None,
    decreases names.len(),
{
    if k == names.len() {
        assert(names.take(k) =~= names);
    } else {
        assert(names.drop_last().take(k) =~= names.take(k));
        lemma_basket_ids_unreadable_prefix(names.drop_last(), k);
    }
}

/// Reads the basket from the names of the request's cookies; `None` where a
/// basket cookie has no readable id.
fn read_basket(cookie_names: &Vec<String>) -> (r: Option<Vec<i32>>)
    ensures
        basket_ids(cookie_names@.map_values(|s: String| s@)) == match r {
            Some(ids) => Some(ids@),
            None => None::<Seq<i32>>,
        },
{
    let ghost names = cookie_names@.map_values(|s: String| s@);
    let mut ids: Vec<i32> = Vec::new();
    let mut i: usize = 0;
    assert(names.take(0) =~= Seq::<Seq<char>>::empty());
    while i < cookie_names.len()
        invariant
            i <= cookie_names.len(),
            names == cookie_names@.map_values(|s: String| s@),
            basket_ids(names.take(i as int)) == Some(ids@),
        decreases cookie_names.len() - i,
    {
        let name = cookie_names[i].as_str();
        proof {
            assert(names.take(i + 1).drop_last() =~= names.take(i as int));
            assert(names.take(i + 1).last() == name@);
        }
        let id = match strip_prefix(name, "product_in_basket___") {
            Some(id) => id,
            None => {
                proof {
                    reveal_strlit("");
                }
                ""
            },
        };
        assert(id@ == (if has_prefix(name@, basket_prefix()) {
            name@.skip(basket_prefix().len() as int)
        } else {
            Seq::<char>::empty()
        }));
        if id.unicode_len() != 0 {
            match parse_i32(id) {
                Some(n) => {
                    ids.push(n);
                },
                None => {
                    proof {
                        lemma_basket_ids_unreadable_prefix(names, i + 1);
                    }
                    return None;
                },
            }
        }
        i = i + 1;
    }
    assert(names.take(cookie_names.len() as int) =~= names);
    Some(ids)
}

/// Whether every basket cookie among the request's cookies has a readable
/// product id, so that the basket can be shown.
pub fn basket_is_readable(cookie_names: &Vec<String>) -> (r: bool)
    ensures
        r == basket_ids(cookie_names@.map_values(|s: String| s@)) is Some,
{
    read_basket(cookie_names).is_some()
}

/// The product ids in the basket, from the names of the request's cookies, in
/// their order. Every basket cookie must have a readable product id.
pub fn basket_product_ids(cookie_names: &Vec<String>) -> (r: Vec<i32>)
    requires
        basket_ids(cookie_names@.map_values(|s: String| s@)) is Some,
    ensures
        basket_ids(cookie_names@.map_values(|s: String| s@)) == Some(r@),
        forall|p: i32|
            cookie_names@.map_values(|s: String| s@).contains(#[trigger] basket_cookie_name(p))
                ==> r@.contains(p),
        forall|p: i32|
            #![trigger r@.contains(p)]
            r@.contains(p) ==> exists|i: int|
                0 <= i < cookie_names@.len() && has_prefix(
                    #[trigger] cookie_names@[i]@,
                    "product_in_basket___"@,
                ) && parse_i32_spec(cookie_names@[i]@.skip(basket_prefix().len() as int)) == Some(p),
{
    let ghost names = cookie_names@.map_values(|s: String| s@);
    let ids = match read_basket(cookie_names) {
        Some(ids) => ids,
        None => {
            assert(false);
            Vec::new()
        },
    };
    proof {
        lemma_basket_read_back_from_jar(names);
        assert(ids@ == basket_ids(names)->0);
        assert forall|p: i32| #![trigger ids@.contains(p)] ids@.contains(p) implies exists|i: int|
            0 <= i < cookie_names@.len() && has_prefix(
                #[trigger] cookie_names@[i]@,
                "product_in_basket___"@,
            ) && parse_i32_spec(cookie_names@[i]@.skip(basket_prefix().len() as int)) == Some(p) by {
            let i = choose|i: int|
                0 <= i < names.len() && basket_entry(#[trigger] names[i]) == Some(Some(p));
            assert(names[i] == cookie_names@[i]@);
            assert(has_prefix(cookie_names@[i]@, "product_in_basket___"@));
        }
    }
    ids
}

/// The cookie that records a product names that product.
pub proof fn lemma_basket_entry_of_cookie(product_id: i32)
    ensures
        basket_entry(basket_cookie_name(product_id)) == Some(Some(product_id)),
{
    let name = basket_cookie_name(product_id);
    let d = decimal_of(product_id as int);
    assert(name.take(basket_prefix().len() as int) =~= basket_prefix());
    assert(name.skip(basket_prefix().len() as int) =~= d);
    lemma_parse_decimal(product_id);
    if product_id < 0 {
        lemma_digits_of((-(product_id as int)) as nat);
    } else {
        lemma_digits_of(product_id as nat);
    }
}

/// A basket read back from the cookies that recorded products holds those
/// products, in the same order.
pub proof fn lemma_basket_round_trip(product_ids: Seq<i32>)
    ensures
        basket_ids(product_ids.map_values(|id: i32| basket_cookie_name(id))) == Some(product_ids),
    decreases product_ids.len(),
{
    let names = product_ids.map_values(|id: i32| basket_cookie_name(id));
    if product_ids.len() > 0 {
        let rest = product_ids.drop_last();
        lemma_basket_round_trip(rest);
        assert(names.drop_last() =~= rest.map_values(|id: i32| basket_cookie_name(id)));
        lemma_basket_entry_of_cookie(product_ids.last());
        assert(rest.push(product_ids.last()) =~= product_ids);
    } else {
        assert(names =~= Seq::<Seq<char>>::empty());
    }
}

/// Every product whose cookie was written is in the basket read back from a
/// cookie jar, whatever other cookies it holds (such as `lang`,
/// `username_cookie` or `session-id`), as long as every basket cookie in it has
/// a readable id; and every id read back comes from a basket cookie of the jar.
pub proof fn lemma_basket_read_back_from_jar(names: Seq<Seq<char>>)
    requires
        basket_ids(names) is Some,
    ensures
        forall|p: i32|
            names.contains(#[trigger] basket_cookie_name(p)) ==> basket_ids(names)->0.contains(p),
        forall|p: i32|
            #![trigger basket_ids(names)->0.contains(p)]
            basket_ids(names)->0.contains(p) ==> exists|i: int|
                0 <= i < names.len() && basket_entry(#[trigger] names[i]) == Some(Some(p)),
    decreases names.len(),
{
    if names.len() == 0 {
        return;
    }
    let rest = names.drop_last();
    let last = names.last();
    lemma_basket_read_back_from_jar(rest);
    let ids = basket_ids(rest)->0;
    let all = basket_ids(names)->0;
    assert forall|p: i32| names.contains(#[trigger] basket_cookie_name(p)) implies all.contains(p) by {
        let i = choose|i: int| 0 <= i < names.len() && names[i] == basket_cookie_name(p);
        if i == names.len() - 1 {
            lemma_basket_entry_of_cookie(p);
            assert(all == ids.push(p));
            assert(all[ids.len() as int] == p);
        } else {
            assert(rest[i] == names[i]);
            assert(rest.contains(basket_cookie_name(p)));
            let j = choose|j: int| 0 <= j < ids.len() && ids[j] == p;
            assert(all[j] == p);
        }
    }
    assert forall|p: i32| all.contains(p) implies exists|i: int|
        0 <= i < names.len() && basket_entry(#[trigger] names[i]) == Some(Some(p)) by {
        let j = choose|j: int| 0 <= j < all.len() && all[j] == p;
        if j < ids.len() {
            assert(ids[j] == p);
            assert(ids.contains(p));
            let i = choose|i: int| 0 <= i < rest.len() && basket_entry(#[trigger] rest[i]) == Some(Some(p));
            assert(names[i] == rest[i]);
        } else {
            assert(names[names.len() - 1] == last);
        }
    }
}

/// The endpoints of the shop.
pub fn stage() -> (r: Vec<Endpoint>)
    ensures
        r@ == seq![
            Endpoint::Store,
            Endpoint::StoreAddItem,
            Endpoint::StoreAddItemSubmit,
            Endpoint::StoreListItems,
            Endpoint::PublicStoreListItems,
            Endpoint::StoreDeleteItem,
            Endpoint::AddToBasket,
            Endpoint::ShowBasket,
        ],
{
    vec![
        Endpoint::Store,
        Endpoint::StoreAddItem,
        Endpoint::StoreAddItemSubmit,
        Endpoint::StoreListItems,
        Endpoint::PublicStoreListItems,
        Endpoint::StoreDeleteItem,
        Endpoint::AddToBasket,
        Endpoint::ShowBasket,
    ]
}

} // verus!
