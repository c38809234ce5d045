//! Posting, updating and deleting products: what each request must hold,
//! and who may make it.

use crate::error::TentechError;
use crate::models::product::Product;
use crate::models::user::TokenData;
use crate::validation::{
    about, blank, has_length, is_url, length_within, none_found, noted_unless, recorded,
    url_shaped, FieldValidator, Finding, Validate,
};
use vstd::prelude::*;

verus! {

/// The body of a request to post a product.
#[derive(Debug)]
pub struct NewProduct {
    pub product: NewProductData,
}

/// What is given of a product, when it is posted and when it is updated.
#[derive(Debug)]
pub struct NewProductData {
    pub title: Option<String>,
    pub body: Option<String>,
    pub simple: Option<String>,
    pub img: Option<String>,
    pub duration: i32,
    pub kind: String,
    pub status: String,
    pub tags: Vec<i32>,
}

/// A product as it is to be stored, for the user that posts it.
#[derive(Debug)]
pub struct ProductDraft {
    pub title: String,
    pub body: String,
    pub simple: String,
    pub img: String,
    pub duration: i32,
    pub kind: String,
    pub status: String,
    pub tags: Vec<i32>,
    pub user_id: i32,
}

/// The 128 bits that `uuid::Uuid::parse_str` reads out of `text`, as
/// `uuid::Uuid::as_u128` gives them, or `None` where it reads no UUID.
pub uninterp spec fn uuid_parsed(text: Seq<char>) -> Option<u128>;

/// Calls `uuid::Uuid::parse_str`, and `uuid::Uuid::as_u128` on what it
/// gives.
#[verifier::external_body]
fn parse_uuid(text: &str) -> (id: Option<u128>)
    ensures
        id == uuid_parsed(text@),
{
    match uuid::Uuid::parse_str(text) {
        Ok(id) => Some(id.as_u128()),
        Err(_) => None,
    }
}

/// The text that only the owner of a product gets past.
pub open spec fn not_owner_message() -> Seq<char> {
    "Cannot delete other's product"@
}

impl Validate for NewProductData {
    /// A title is of 1 to 33 characters, a body and a summary of one or
    /// more, and an image is a URL; each where it is given.
    open spec fn broken_rules(&self) -> Map<Seq<char>, Seq<Finding>> {
        let a = match self.title {
            Some(title) => noted_unless(
                length_within(title@, Some(1u64), Some(33u64)),
                none_found(),
                "title"@,
                about("length"@, title@),
            ),
            None => none_found(),
        };
        let b = match self.body {
            Some(body) => noted_unless(
                length_within(body@, Some(1u64), None),
                a,
                "body"@,
                about("length"@, body@),
            ),
            None => a,
        };
        let c = match self.simple {
            Some(simple) => noted_unless(
                length_within(simple@, Some(1u64), None),
                b,
                "simple"@,
                about("length"@, simple@),
            ),
            None => b,
        };
        match self.img {
            Some(img) => noted_unless(url_shaped(img@), c, "img"@, about("url"@, img@)),
            None => c,
        }
    }

    fn validate(&self) -> (found: FieldValidator) {
        let mut found = FieldValidator::default();
        match &self.title {
            Some(title) => found.require(
                has_length(title, Some(1), Some(33)),
                "title",
                "length",
                title,
            ),
            None => {},
        }
        match &self.body {
            Some(body) => found.require(has_length(body, Some(1), None), "body", "length", body),
            None => {},
        }
        match &self.simple {
            Some(simple) => found.require(
                has_length(simple, Some(1), None),
                "simple",
                "length",
                simple,
            ),
            None => {},
        }
        match &self.img {
            Some(img) => found.require(is_url(img), "img", "url", img),
            None => {},
        }
        found
    }
}

/// All that is wrong with what is given of a product: the rules that the
/// given fields break, and after them a blank for each field left out, in
/// the order title, body, simple, img.
pub open spec fn product_errors(data: NewProductData) -> Map<Seq<char>, Seq<Finding>> {
    noted_unless(
        data.img is Some,
        noted_unless(
            data.simple is Some,
            noted_unless(
                data.body is Some,
                noted_unless(data.title is Some, data.broken_rules(), "title"@, blank()),
                "body"@,
                blank(),
            ),
            "simple"@,
            blank(),
        ),
        "img"@,
        blank(),
    )
}

/// Checks what is given of a product, and drafts the product for `user_id`.
fn draft(data: NewProductData, user_id: i32) -> (r: Result<ProductDraft, TentechError>)
    ensures
        r is Ok <==> product_errors(data) == none_found(),
        r matches Ok(product) ==> {
            &&& data.title == Some(product.title)
            &&& data.body == Some(product.body)
            &&& data.simple == Some(product.simple)
            &&& data.img == Some(product.img)
            &&& product.duration == data.duration
            &&& product.kind == data.kind
            &&& product.status == data.status
            &&& product.tags == data.tags
            &&& product.user_id == user_id
        },
        r matches Err(e) ==> e matches TentechError::ValidationFailed(errors) && recorded(errors)
            == product_errors(data),
{
    let mut extractor = FieldValidator::validate(&data);
    let title = extractor.extract("title", data.title);
    let body = extractor.extract("body", data.body);
    let simple = extractor.extract("simple", data.simple);
    let img = extractor.extract("img", data.img);
    match extractor.check() {
        Ok(()) => Ok(
            ProductDraft {
                title,
                body,
                simple,
                img,
                duration: data.duration,
                kind: data.kind,
                status: data.status,
                tags: data.tags,
                user_id,
            },
        ),
        Err(e) => Err(TentechError::ValidationFailed(e.errors)),
    }
}

/// Whether the identity behind `token` owns `product`.
fn owned(token: &TokenData, product: &Product) -> (r: Result<(), TentechError>)
    ensures
        product.user_id == token.user.id ==> r is Ok,
        product.user_id != token.user.id ==> (r matches Err(TentechError::Unauthorized(text))
            && text@ == not_owner_message()),
{
    if !(product.user_id == token.user.id) {
        return Err(TentechError::Unauthorized("Cannot delete other's product".to_owned()));
    }
    Ok(())
}

/// The identifier of a product, read out of the path of a request.
pub fn product_uuid(id: &str) -> (uuid: Option<u128>)
    ensures
        uuid == uuid_parsed(id@),
{
    parse_uuid(id)
}

/// Checks a request to post a product: the product to store, for the
/// identity behind `token`, or all that is wrong with the request.
pub fn post_products(new_product: NewProduct, token: &TokenData) -> (r: Result<
    ProductDraft,
    TentechError,
>)
    ensures
        r is Ok <==> product_errors(new_product.product) == none_found(),
        r matches Ok(product) ==> {
            &&& new_product.product.title == Some(product.title)
            &&& new_product.product.body == Some(product.body)
            &&& new_product.product.simple == Some(product.simple)
            &&& new_product.product.img == Some(product.img)
            &&& product.duration == new_product.product.duration
            &&& product.kind == new_product.product.kind
            &&& product.status == new_product.product.status
            &&& product.tags == new_product.product.tags
            &&& product.user_id == token.user.id
        },
        r matches Err(e) ==> e matches TentechError::ValidationFailed(errors) && recorded(errors)
            == product_errors(new_product.product),
{
    draft(new_product.product, token.user.id)
}

/// Checks a request to update `product`: only its owner may, and what is
/// given must break no rule. The owner is asked for first.
pub fn update_products(update_product: NewProductData, token: &TokenData, product: &Product) -> (r:
    Result<ProductDraft, TentechError>)
    ensures
        r is Ok <==> product.user_id == token.user.id && product_errors(update_product)
            == none_found(),
        product.user_id != token.user.id ==> (r matches Err(TentechError::Unauthorized(text))
            && text@ == not_owner_message()),
        product.user_id == token.user.id ==> {
            &&& r matches Ok(draft) ==> {
                &&& update_product.title == Some(draft.title)
                &&& update_product.body == Some(draft.body)
                &&& update_product.simple == Some(draft.simple)
                &&& update_product.img == Some(draft.img)
                &&& draft.duration == update_product.duration
                &&& draft.kind == update_product.kind
                &&& draft.status == update_product.status
                &&& draft.tags == update_product.tags
                &&& draft.user_id == token.user.id
            }
            &&& r matches Err(e) ==> e matches TentechError::ValidationFailed(errors) && recorded(
                errors,
            ) == product_errors(update_product)
        },
{
    match owned(token, product) {
        Err(e) => {
            return Err(e);
        },
        Ok(()) => {},
    }
    draft(update_product, token.user.id)
}

/// Checks a request to delete `product`: only its owner may.
pub fn delete_products(token: &TokenData, product: &Product) -> (r: Result<(), TentechError>)
    ensures
        product.user_id == token.user.id ==> r is Ok,
        product.user_id != token.user.id ==> (r matches Err(TentechError::Unauthorized(text))
            && text@ == not_owner_message()),
{
    owned(token, product)
}

} // verus!
