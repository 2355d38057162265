//! The endpoints that the web application serves, and the flash messages that
//! its redirects carry.
use vstd::prelude::*;

verus! {

/// The HTTP method an endpoint answers.
#[derive(Clone, Copy, Debug, PartialEq, Eq, Structural)]
pub enum Method {
    Get,
    Post,
}

/// An endpoint of the application, as mounted by a module's `stage`.
#[derive(Clone, Copy, Debug, PartialEq, Eq, Structural)]
pub enum Endpoint {
    SetLang,
    LoginPage,
    PostLogin,
    Signup,
    SignupSubmit,
    Store,
    StoreAddItem,
    StoreAddItemSubmit,
    StoreListItems,
    PublicStoreListItems,
    StoreDeleteItem,
    AddToBasket,
    ShowBasket,
}

/// The method of each endpoint.
pub open spec fn endpoint_method(e: Endpoint) -> Method {
    match e {
        Endpoint::PostLogin | Endpoint::SignupSubmit | Endpoint::StoreAddItemSubmit => Method::Post,
        _ => Method::Get,
    }
}

/// The path of each endpoint, relative to where its stage is mounted.
pub open spec fn endpoint_path(e: Endpoint) -> Seq<char> {
    match e {
        Endpoint::SetLang => "/config_set_lang/<lang>"@,
        Endpoint::LoginPage => "/login"@,
        Endpoint::PostLogin => "/login"@,
        Endpoint::Signup => "/signup"@,
        Endpoint::SignupSubmit => "/signup"@,
        Endpoint::Store => "/"@,
        Endpoint::StoreAddItem => "/add_item"@,
        Endpoint::StoreAddItemSubmit => "/add_item_submit"@,
        Endpoint::StoreListItems => "/list_items"@,
        Endpoint::PublicStoreListItems => "/list_items"@,
        Endpoint::StoreDeleteItem => "/delete_item/<id>"@,
        Endpoint::AddToBasket => "/add_to_basket/<product_id>/<number>"@,
        Endpoint::ShowBasket => "/show_basket"@,
    }
}

/// The rank of each endpoint; only the public product list gives one, so that
/// the list for a logged-in user is tried first.
pub open spec fn endpoint_rank(e: Endpoint) -> Option<isize> {
    match e {
        Endpoint::PublicStoreListItems => Some(2),
        _ => None,
    }
}

/// The endpoints that receive a submitted form answer POST; every other
/// endpoint answers GET.
pub proof fn lemma_form_endpoints_answer_post(e: Endpoint)
    ensures
        endpoint_method(e) == Method::Post <==> (e == Endpoint::PostLogin || e == Endpoint::SignupSubmit
            || e == Endpoint::StoreAddItemSubmit),
        endpoint_method(e) == Method::Get <==> !(e == Endpoint::PostLogin || e == Endpoint::SignupSubmit
            || e == Endpoint::StoreAddItemSubmit),
{
}

/// A form page and the endpoint that receives its form share a path, as do
/// the two product lists; of the two lists, only the public one has a rank, so
/// that the list for a logged-in user is tried first.
pub proof fn lemma_shared_paths(e: Endpoint)
    ensures
        endpoint_path(Endpoint::LoginPage) == endpoint_path(Endpoint::PostLogin),
        endpoint_path(Endpoint::Signup) == endpoint_path(Endpoint::SignupSubmit),
        endpoint_path(Endpoint::StoreListItems) == endpoint_path(Endpoint::PublicStoreListItems),
        endpoint_rank(e) is Some <==> e == Endpoint::PublicStoreListItems,
{
}

impl Endpoint {
    /// The method this endpoint answers.
    pub fn method(&self) -> (r: Method)
        ensures
            r == endpoint_method(*self),
            r == Method::Post <==> (*self == Endpoint::PostLogin || *self == Endpoint::SignupSubmit || *self == Endpoint::StoreAddItemSubmit),
            r == Method::Get <==> !(*self == Endpoint::PostLogin || *self == Endpoint::SignupSubmit || *self == Endpoint::StoreAddItemSubmit),
    {
        match self {
            Endpoint::PostLogin | Endpoint::SignupSubmit | Endpoint::StoreAddItemSubmit => Method::Post,
            _ => Method::Get,
        }
    }

    /// The path of this endpoint, relative to where its stage is mounted.
    pub fn path(&self) -> (r: &'static str)
        ensures
            r@ == endpoint_path(*self),
            *self == Endpoint::SetLang ==> r@ == "/config_set_lang/<lang>"@,
            *self == Endpoint::LoginPage ==> r@ == "/login"@,
            *self == Endpoint::PostLogin ==> r@ == "/login"@,
            *self == Endpoint::Signup ==> r@ == "/signup"@,
            *self == Endpoint::SignupSubmit ==> r@ == "/signup"@,
            *self == Endpoint::Store ==> r@ == "/"@,
            *self == Endpoint::StoreAddItem ==> r@ == "/add_item"@,
            *self == Endpoint::StoreAddItemSubmit ==> r@ == "/add_item_submit"@,
            *self == Endpoint::StoreListItems ==> r@ == "/list_items"@,
            *self == Endpoint::PublicStoreListItems ==> r@ == "/list_items"@,
            *self == Endpoint::StoreDeleteItem ==> r@ == "/delete_item/<id>"@,
            *self == Endpoint::AddToBasket ==> r@ == "/add_to_basket/<product_id>/<number>"@,
            *self == Endpoint::ShowBasket ==> r@ == "/show_basket"@,
    {
        match self {
            Endpoint::SetLang => "/config_set_lang/<lang>",
            Endpoint::LoginPage => "/login",
            Endpoint::PostLogin => "/login",
            Endpoint::Signup => "/signup",
            Endpoint::SignupSubmit => "/signup",
            Endpoint::Store => "/",
            Endpoint::StoreAddItem => "/add_item",
            Endpoint::StoreAddItemSubmit => "/add_item_submit",
            Endpoint::StoreListItems => "/list_items",
            Endpoint::PublicStoreListItems => "/list_items",
            Endpoint::StoreDeleteItem => "/delete_item/<id>",
            Endpoint::AddToBasket => "/add_to_basket/<product_id>/<number>",
            Endpoint::ShowBasket => "/show_basket",
        }
    }

    /// The rank of this endpoint, where it has one.
    pub fn rank(&self) -> (r: Option<isize>)
        ensures
            r == endpoint_rank(*self),
            r is Some <==> *self == Endpoint::PublicStoreListItems,
            r matches Some(k) ==> k == 2,
    {
        match self {
            Endpoint::PublicStoreListItems => Some(2),
            _ => None,
        }
    }
}

/// Whether a flash message reports a success or an error.
#[derive(Clone, Copy, Debug, PartialEq, Eq, Structural)]
pub enum FlashKind {
    Success,
    Error,
}

/// A message that a redirect carries to the next page.
#[derive(Clone, Copy, Debug)]
pub struct FlashMessage {
    pub kind: FlashKind,
    pub text: &'static str,
}

} // verus!
