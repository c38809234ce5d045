//! Uploading an asset to object storage.

use crate::error::TentechError;
use vstd::prelude::*;
use vstd::string::StringExecFns;

verus! {

/// The body of a request to upload.
#[derive(Debug)]
pub struct NewAsset {
    pub asset: NewAssetData,
}

/// The asset to upload: the key to store it under, and its bytes in base64.
#[derive(Debug)]
pub struct NewAssetData {
    pub key: String,
    pub attachment: String,
}

/// Where an uploaded asset can be fetched from.
#[derive(Debug)]
pub struct CreatedAsset {
    pub url: String,
}

/// What is handed to object storage.
#[derive(Debug)]
pub struct PutObject {
    pub bucket: String,
    pub key: String,
    pub body: Vec<u8>,
}

/// The bucket that holds every asset.
pub open spec fn bucket_name() -> Seq<char> {
    "tentech"@
}

/// What the address of every asset starts with; its key follows.
pub open spec fn asset_url_prefix() -> Seq<char> {
    "https://tentech.s3-ap-northeast-1.amazonaws.com/"@
}

/// The bytes that `base64::Engine::decode` reads out of `text` with the
/// crate's `STANDARD` engine, or `None` where the crate refuses the text.
pub uninterp spec fn base64_decoded(text: Seq<char>) -> Option<Seq<u8>>;

/// Calls `base64::Engine::decode` on the crate's `STANDARD` engine: the
/// standard alphabet, with padding.
#[verifier::external_body]
fn decode_base64(text: &str) -> (bytes: Option<Vec<u8>>)
    ensures
        bytes is Some <==> base64_decoded(text@) is Some,
        bytes matches Some(b) ==> base64_decoded(text@) == Some(b@),
{
    match base64::Engine::decode(&base64::engine::general_purpose::STANDARD, text) {
        Ok(bytes) => Some(bytes),
        Err(_) => None,
    }
}

/// Checks a request to upload: what to hand to object storage, or
/// `CannotDecodeBase64` where the attachment is no base64.
pub fn upload(new_asset: NewAsset) -> (r: Result<PutObject, TentechError>)
    ensures
        match base64_decoded(new_asset.asset.attachment@) {
            Some(bytes) => r matches Ok(put) && put.bucket@ == bucket_name() && put.key
                == new_asset.asset.key && put.body@ == bytes,
            None => r matches Err(TentechError::CannotDecodeBase64),
        },
{
    let new_asset = new_asset.asset;
    match decode_base64(new_asset.attachment.as_str()) {
        Some(body) => Ok(PutObject { bucket: "tentech".to_owned(), key: new_asset.key, body }),
        None => Err(TentechError::CannotDecodeBase64),
    }
}

/// What is answered once object storage has reported on the upload of
/// `key`: the address of the asset where it took it, and
/// `CannotPutS3Object` where it did not.
pub fn uploaded(key: &String, put: Result<(), ()>) -> (r: Result<CreatedAsset, TentechError>)
    ensures
        put is Ok ==> (r matches Ok(asset) && asset.url@ == asset_url_prefix() + key@),
        put is Err ==> r matches Err(TentechError::CannotPutS3Object),
{
    match put {
        Ok(()) => {
            let mut url = "https://tentech.s3-ap-northeast-1.amazonaws.com/".to_owned();
            url.append(key.as_str());
            Ok(CreatedAsset { url })
        },
        Err(_) => Err(TentechError::CannotPutS3Object),
    }
}

} // verus!
