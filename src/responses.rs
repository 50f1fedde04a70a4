use vstd::prelude::*;

use crate::client::{StorageClient, STORAGE_V1};
use crate::errors::ClientError;
use crate::models::{
    BucketResponse, CopyFileResponse, CreateBucketResponse, SignedUploadUrlResponse,
    SignedUrlResponse,
};
use crate::url::{extract_token, is_missing_token, token_of};

verus! {

/// A status of the 2xx class.
pub open spec fn is_success(status: u16) -> bool {
    200 <= status <= 299
}

/// `e` is the service error that carries `status` and the body `body`.
pub open spec fn is_service_error(e: ClientError, status: u16, body: Seq<char>) -> bool {
    match e {
        ClientError::StorageError { status: s, message: m } => s == status && m@ == body,
        _ => false,
    }
}

/// The text that String::from_utf8_lossy makes of `bytes`.
pub uninterp spec fn utf8_lossy_of(bytes: Seq<u8>) -> Seq<char>;

/// Relies on String::from_utf8_lossy: the bytes read as UTF-8, each invalid
/// sequence replaced; the text depends on the bytes alone.
#[verifier::external_body]
fn lossy_text(bytes: &Vec<u8>) -> (r: String)
    ensures
        r@ == utf8_lossy_of(bytes@),
{
    String::from_utf8_lossy(bytes.as_slice()).into_owned()
}

fn is_success_status(status: u16) -> (b: bool)
    ensures
        b == is_success(status),
{
    200 <= status && status <= 299
}

/// The outcome of a call whose response had the status `status` and the
/// body `body`, given what the body decoded to as the expected success shape
/// (`None` where it did not decode): the decoded value on a 2xx status, and
/// otherwise a service error with the status and the body.
pub fn decode_response<T>(status: u16, body: String, decoded: Option<T>) -> (r: Result<
    T,
    ClientError,
>)
    ensures
        r is Ok <==> is_success(status) && decoded is Some,
        r is Ok ==> r->Ok_0 == decoded->Some_0,
        r is Err ==> is_service_error(r->Err_0, status, body@),
{
    if is_success_status(status) {
        if let Some(v) = decoded {
            return Ok(v);
        }
    }
    Err(ClientError::StorageError { status, message: body })
}

/// The outcome of the creation of a bucket: the bucket's name.
pub fn create_bucket_response(
    status: u16,
    body: String,
    decoded: Option<CreateBucketResponse>,
) -> (r: Result<String, ClientError>)
    ensures
        r is Ok <==> is_success(status) && decoded is Some,
        r is Ok ==> r->Ok_0 == decoded->Some_0.name,
        r is Err ==> is_service_error(r->Err_0, status, body@),
{
    match decode_response(status, body, decoded) {
        Ok(v) => Ok(v.name),
        Err(e) => Err(e),
    }
}

/// The outcome of the deletion of a bucket: a 2xx status, whatever the body.
pub fn delete_bucket_response(status: u16, body: String) -> (r: Result<(), ClientError>)
    ensures
        r is Ok <==> is_success(status),
        r is Err ==> is_service_error(r->Err_0, status, body@),
{
    if is_success_status(status) {
        Ok(())
    } else {
        Err(ClientError::StorageError { status, message: body })
    }
}

/// The outcome of a call that answers with a message (a bucket update, the
/// emptying of a bucket, a move): the message.
pub fn message_response(status: u16, body: String, decoded: Option<BucketResponse>) -> (r: Result<
    String,
    ClientError,
>)
    ensures
        r is Ok <==> is_success(status) && decoded is Some,
        r is Ok ==> r->Ok_0 == decoded->Some_0.message,
        r is Err ==> is_service_error(r->Err_0, status, body@),
{
    match decode_response(status, body, decoded) {
        Ok(v) => Ok(v.message),
        Err(e) => Err(e),
    }
}

/// The outcome of a copy: the key of the new object.
pub fn copy_file_response(status: u16, body: String, decoded: Option<CopyFileResponse>) -> (r:
    Result<String, ClientError>)
    ensures
        r is Ok <==> is_success(status) && decoded is Some,
        r is Ok ==> r->Ok_0 == decoded->Some_0.key,
        r is Err ==> is_service_error(r->Err_0, status, body@),
{
    match decode_response(status, body, decoded) {
        Ok(v) => Ok(v.key),
        Err(e) => Err(e),
    }
}

/// The outcome of a download: the bytes on a 2xx status; otherwise a service
/// error whose message is the body read as UTF-8.
pub fn download_file_response(status: u16, body: Vec<u8>) -> (r: Result<Vec<u8>, ClientError>)
    ensures
        r is Ok <==> is_success(status),
        r is Ok ==> r->Ok_0@ == body@,
        r is Err ==> is_service_error(r->Err_0, status, utf8_lossy_of(body@)),
{
    if is_success_status(status) {
        Ok(body)
    } else {
        Err(ClientError::StorageError { status, message: lossy_text(&body) })
    }
}

/// The outcome of the signing of an upload URL, given the `url` field of the
/// decoded body: the URL and the token it carries.
pub fn signed_upload_url_response(status: u16, body: String, decoded_url: Option<String>) -> (r:
    Result<SignedUploadUrlResponse, ClientError>)
    ensures
        r is Ok <==> is_success(status) && decoded_url is Some && token_of(
            decoded_url->Some_0@,
        ) is Some,
        r is Ok ==> r->Ok_0.url == decoded_url->Some_0 && r->Ok_0.token@ == token_of(
            decoded_url->Some_0@,
        )->Some_0,
        r is Err ==> if is_success(status) && decoded_url is Some {
            is_missing_token(r->Err_0)
        } else {
            is_service_error(r->Err_0, status, body@)
        },
{
    let url = match decode_response(status, body, decoded_url) {
        Ok(u) => u,
        Err(e) => return Err(e),
    };
    let token = match extract_token(url.as_str()) {
        Ok(t) => t.to_owned(),
        Err(e) => return Err(e),
    };
    Ok(SignedUploadUrlResponse { url, token })
}

impl StorageClient {
    /// The outcome of the signing of a download URL: the storage API's URL
    /// followed by the signed path the service gave.
    pub fn signed_url_response(
        &self,
        status: u16,
        body: String,
        decoded: Option<SignedUrlResponse>,
    ) -> (r: Result<String, ClientError>)
        ensures
            r is Ok <==> is_success(status) && decoded is Some,
            r is Ok ==> r->Ok_0@ == self.endpoint(decoded->Some_0.signed_url@),
            r is Err ==> is_service_error(r->Err_0, status, body@),
    {
        match decode_response(status, body, decoded) {
            Ok(v) => {
                let mut url = self.project_url.clone();
                url.append(STORAGE_V1);
                url.append(v.signed_url.as_str());
                Ok(url)
            },
            Err(e) => Err(e),
        }
    }

    /// The outcome of the signing of several download URLs: for each signed
    /// path the service gave, in order, the storage API's URL followed by it.
    pub fn multiple_signed_urls_response(
        &self,
        status: u16,
        body: String,
        decoded: Option<Vec<SignedUrlResponse>>,
    ) -> (r: Result<Vec<String>, ClientError>)
        ensures
            r is Ok <==> is_success(status) && decoded is Some,
            r is Ok ==> r->Ok_0@.len() == decoded->Some_0@.len() && forall|i: int|
                0 <= i < r->Ok_0@.len() ==> r->Ok_0@[i]@ == self.endpoint(
                    decoded->Some_0@[i].signed_url@,
                ),
            r is Err ==> is_service_error(r->Err_0, status, body@),
    {
        let signed = match decode_response(status, body, decoded) {
            Ok(v) => v,
            Err(e) => return Err(e),
        };
        let mut urls: Vec<String> = Vec::new();
        let mut i: usize = 0;
        while i < signed.len()
            invariant
                i <= signed.len(),
                urls@.len() == i,
                forall|j: int|
                    0 <= j < i ==> urls@[j]@ == self.endpoint(signed@[j].signed_url@),
            decreases signed.len() - i,
        {
            let mut url = self.project_url.clone();
            url.append(STORAGE_V1);
            url.append(signed[i].signed_url.as_str());
            urls.push(url);
            i = i + 1;
        }
        Ok(urls)
    }
}

} // verus!
