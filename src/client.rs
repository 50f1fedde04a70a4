use vstd::prelude::*;

use crate::errors::ClientError;
use crate::headers::{
    canonical_name, put_header, put_header_if_absent, valid_header_name,
    valid_header_value, HeaderSeq, Headers,
};
use crate::mime::MimeType;
use crate::models::{DownloadOptions, FileOptions, FileSearchOptions, TransformOptions};
use crate::payloads::{
    copy_json, create_bucket_json, lemma_create_bucket_json, list_files_json, move_json,
    multiple_signed_urls_json, prefix_or_root,
    opt_mime_texts, opt_view, signed_url_json, transfer_of, update_bucket_json, CopyFilePayload,
    CreateBucket, CreateMultipleSignedUrlsPayload, CreateSignedUrlPayload, ListFilesPayload,
    MoveFilePayload, UpdateBucket,
};
use crate::text::{decimal, decimal_string};

verus! {

/// The path of the storage API under a project's URL.
pub const STORAGE_V1: &'static str = "/storage/v1";

/// The header that carries the API key.
pub const HEADER_API_KEY: &'static str = "apikey";

/// The header that carries the bearer credential.
pub const AUTHORIZATION: &'static str = "authorization";

/// The header that names the body's media type.
pub const CONTENT_TYPE: &'static str = "content-type";

/// The header that sets an object's cache lifetime.
pub const CACHE_CONTROL: &'static str = "cache-control";

/// The header that asks an upload to overwrite an existing object.
pub const UPSERT: &'static str = "x-upsert";

/// The media type of JSON bodies.
pub const APPLICATION_JSON: &'static str = "application/json";

/// The HTTP verb of a request.
#[derive(Clone, Copy, Debug, PartialEq, Eq, Structural)]
pub enum Method {
    Get,
    Post,
    Put,
    Delete,
}

/// The body of a request.
#[derive(Clone, Debug)]
pub enum Body {
    Empty,
    Json(String),
    Bytes(Vec<u8>),
}

/// One HTTP request, ready to be sent.
pub struct Request {
    pub method: Method,
    pub url: String,
    pub headers: Headers,
    pub body: Body,
}

/// The body is JSON text `t`.
pub open spec fn json_body(b: Body, t: Seq<char>) -> bool {
    match b {
        Body::Json(s) => s@ == t,
        _ => false,
    }
}

/// The body is the bytes `d`.
pub open spec fn bytes_body(b: Body, d: Seq<u8>) -> bool {
    match b {
        Body::Bytes(v) => v@ == d,
        _ => false,
    }
}

/// `r` is the request with the header list `hs`, verb `method` and URL `url`
/// where `hs` could be made, and the header error where it could not.
pub open spec fn built(
    r: Result<Request, ClientError>,
    hs: Option<HeaderSeq>,
    method: Method,
    url: Seq<char>,
) -> bool {
    match r {
        Ok(req) => hs == Some(req.headers@) && req.method == method && req.url@ == url,
        Err(e) => hs is None && e is InvalidHeaderValue,
    }
}

/// As `built`, for a request with the JSON body `json`.
pub open spec fn built_json(
    r: Result<Request, ClientError>,
    hs: Option<HeaderSeq>,
    method: Method,
    url: Seq<char>,
    json: Seq<char>,
) -> bool {
    match r {
        Ok(req) => hs == Some(req.headers@) && req.method == method && req.url@ == url
            && json_body(req.body, json),
        Err(e) => hs is None && e is InvalidHeaderValue,
    }
}

/// Adds a JSON content type.
pub open spec fn json_typed(hs: Option<HeaderSeq>) -> Option<HeaderSeq> {
    put_header(hs, CONTENT_TYPE@, APPLICATION_JSON@)
}

/// The headers an upload's settings add: the cache lifetime and the content
/// type where set, and the overwrite flag only where it is on.
pub open spec fn file_headers(hs: Option<HeaderSeq>, o: Option<FileOptions>) -> Option<HeaderSeq> {
    match o {
        None => hs,
        Some(o) => {
            let cached = match o.cache_control {
                Some(s) => put_header(hs, CACHE_CONTROL@, decimal(s as nat)),
                None => hs,
            };
            let typed = match o.content_type {
                Some(t) => put_header(cached, CONTENT_TYPE@, t@),
                None => cached,
            };
            if o.upsert {
                put_header(typed, UPSERT@, "true"@)
            } else {
                typed
            }
        },
    }
}

/// The path segment a download goes through: image rendering where a
/// transform is asked for, the plain object otherwise.
pub open spec fn download_segment(o: Option<DownloadOptions>) -> Seq<char> {
    match o {
        Some(d) => if d.transform is Some {
            "/render/image/authenticated/"@
        } else {
            "/object/"@
        },
        None => "/object/"@,
    }
}

/// Sets each header an upload's settings ask for.
pub fn apply_file_options(h: &mut Headers, options: &Option<FileOptions>) -> (r: Result<
    (),
    ClientError,
>)
    ensures
        file_headers(Some(old(h)@), *options) == (if r is Ok {
            Some(final(h)@)
        } else {
            None::<HeaderSeq>
        }),
        r is Err ==> r->Err_0 is InvalidHeaderValue,
{
    if let Some(o) = options {
        if let Some(secs) = o.cache_control {
            let text = decimal_string(secs);
            if let Err(e) = h.insert(CACHE_CONTROL, text.as_str()) {
                return Err(e);
            }
        }
        if let Some(t) = o.content_type {
            if let Err(e) = h.insert(CONTENT_TYPE, t) {
                return Err(e);
            }
        }
        if o.upsert {
            if let Err(e) = h.insert(UPSERT, "true") {
                return Err(e);
            }
        }
    }
    Ok(())
}

/// The configuration of a client of one project's storage API: its URL, the
/// credential sent with each request, and headers added to every request.
pub struct StorageClient {
    /// The project's URL, such as `https://<project id>.supabase.co`.
    pub project_url: String,
    /// The API key; it is also sent as the bearer credential.
    pub api_key: String,
    pub headers: Headers,
}

impl StorageClient {
    /// A client of the project at `project_url`, with no extra headers.
    pub fn new(project_url: String, api_key: String) -> (r: StorageClient)
        ensures
            r.project_url == project_url,
            r.api_key == api_key,
            r.headers@ == Seq::<(Seq<char>, Seq<char>)>::empty(),
    {
        StorageClient { project_url, api_key, headers: Headers::new() }
    }

    /// This client with one more header for every request; the header wins
    /// over any set before under the same name (names ignore case).
    pub fn insert_header(self, header_name: &str, header_value: &str) -> (r: Result<
        StorageClient,
        ClientError,
    >)
        ensures
            r is Ok <==> valid_header_name(header_name@) && valid_header_value(
                header_value@,
            ),
            r is Ok ==> r->Ok_0.project_url == self.project_url && r->Ok_0.api_key
                == self.api_key && r->Ok_0.headers@ == self.headers@.push(
                (canonical_name(header_name@), header_value@),
            ),
            r is Err ==> (!valid_header_name(header_name@) && r->Err_0 is InvalidHeaderName)
                || (valid_header_name(header_name@) && r->Err_0 is InvalidHeaderValue),
    {
        let name = match crate::headers::header_name(header_name) {
            Ok(n) => n,
            Err(e) => return Err(e),
        };
        let mut client = self;
        match client.headers.insert(name.as_str(), header_value) {
            Ok(()) => Ok(client),
            Err(e) => Err(e),
        }
    }

    /// The URL of `path` under the storage API.
    pub open spec fn endpoint(&self, path: Seq<char>) -> Seq<char> {
        self.project_url@ + STORAGE_V1@ + path
    }

    /// The bearer credential.
    pub open spec fn bearer(&self) -> Seq<char> {
        "Bearer "@ + self.api_key@
    }

    /// Adds the bearer credential unless an authorization header is set.
    pub open spec fn authorized(&self, hs: Option<HeaderSeq>) -> Option<HeaderSeq> {
        put_header_if_absent(hs, AUTHORIZATION@, self.bearer())
    }

    /// The default headers.
    pub open spec fn defaults(&self) -> Option<HeaderSeq> {
        Some(self.headers@)
    }

    /// The default headers and the API key.
    pub open spec fn keyed(&self) -> Option<HeaderSeq> {
        put_header(Some(self.headers@), HEADER_API_KEY@, self.api_key@)
    }

    fn url(&self, path: &str) -> (r: String)
        ensures
            r@ == self.endpoint(path@),
    {
        let mut r = self.project_url.clone();
        r.append(STORAGE_V1);
        r.append(path);
        r
    }

    fn authorize(&self, h: &mut Headers) -> (r: Result<(), ClientError>)
        ensures
            self.authorized(Some(old(h)@)) == (if r is Ok {
                Some(final(h)@)
            } else {
                None::<HeaderSeq>
            }),
            r is Err ==> r->Err_0 is InvalidHeaderValue,
    {
        let mut bearer = "Bearer ".to_owned();
        bearer.append(self.api_key.as_str());
        h.insert_if_absent(AUTHORIZATION, bearer.as_str())
    }

    /// The default headers with the bearer credential.
    fn authorized_headers(&self) -> (r: Result<Headers, ClientError>)
        ensures
            self.authorized(self.defaults()) == (match r {
                Ok(h) => Some(h@),
                Err(_) => None::<HeaderSeq>,
            }),
            r is Err ==> r->Err_0 is InvalidHeaderValue,
    {
        let mut h = self.headers.duplicate();
        match self.authorize(&mut h) {
            Ok(()) => Ok(h),
            Err(e) => Err(e),
        }
    }

    /// The default headers with the API key and the bearer credential.
    fn keyed_headers(&self) -> (r: Result<Headers, ClientError>)
        ensures
            self.authorized(self.keyed()) == (match r {
                Ok(h) => Some(h@),
                Err(_) => None::<HeaderSeq>,
            }),
            r is Err ==> r->Err_0 is InvalidHeaderValue,
    {
        let mut h = self.headers.duplicate();
        if let Err(e) = h.insert(HEADER_API_KEY, self.api_key.as_str()) {
            return Err(e);
        }
        match self.authorize(&mut h) {
            Ok(()) => Ok(h),
            Err(e) => Err(e),
        }
    }

    /// Adds a JSON content type to a header list under construction.
    fn with_json_type(h: Result<Headers, ClientError>) -> (r: Result<Headers, ClientError>)
        ensures
            json_typed(match h {
                Ok(v) => Some(v@),
                Err(_) => None::<HeaderSeq>,
            }) == (match r {
                Ok(v) => Some(v@),
                Err(_) => None::<HeaderSeq>,
            }),
            r is Err ==> (h is Err && r == h) || r->Err_0 is InvalidHeaderValue,
    {
        match h {
            Ok(mut v) => match v.insert(CONTENT_TYPE, APPLICATION_JSON) {
                Ok(()) => Ok(v),
                Err(e) => Err(e),
            },
            Err(e) => Err(e),
        }
    }
}

impl StorageClient {
    /// The request that creates a bucket called `name`, whose id is `id` or,
    /// where none is given, `name`.
    pub fn create_bucket_request(
        &self,
        name: &str,
        id: Option<&str>,
        public: bool,
        allowed_mime_types: Option<Vec<MimeType>>,
        file_size_limit: Option<u64>,
    ) -> (r: Result<Request, ClientError>)
        ensures
            built_json(
                r,
                json_typed(self.authorized(self.keyed())),
                Method::Post,
                self.endpoint("/bucket"@),
                create_bucket_json(
                    name@,
                    opt_view(id),
                    public,
                    opt_mime_texts(allowed_mime_types),
                    file_size_limit,
                ),
            ),
    {
        let headers = match Self::with_json_type(self.keyed_headers()) {
            Ok(h) => h,
            Err(e) => return Err(e),
        };
        let payload = CreateBucket::new(name, id, public, allowed_mime_types, file_size_limit);
        proof {
            lemma_create_bucket_json(
                payload,
                name@,
                opt_view(id),
                public,
                opt_mime_texts(allowed_mime_types),
                file_size_limit,
            );
        }
        let body = payload.to_json();
        let url = self.url("/bucket");
        Ok(Request { method: Method::Post, url, headers, body: Body::Json(body) })
    }

    /// The request that deletes bucket `id`; like every bucket change it
    /// carries the API key as well as the bearer credential.
    pub fn delete_bucket_request(&self, id: &str) -> (r: Result<Request, ClientError>)
        ensures
            built(
                r,
                self.authorized(self.keyed()),
                Method::Delete,
                self.endpoint("/bucket/"@ + id@),
            ),
            r is Ok ==> r->Ok_0.body is Empty,
    {
        let headers = match self.keyed_headers() {
            Ok(h) => h,
            Err(e) => return Err(e),
        };
        let mut url = self.url("/bucket/");
        url.append(id);
        assert(url@ =~= self.endpoint("/bucket/"@ + id@));
        Ok(Request { method: Method::Delete, url, headers, body: Body::Empty })
    }

    /// The request that reads bucket `bucket_id`.
    pub fn get_bucket_request(&self, bucket_id: &str) -> (r: Result<Request, ClientError>)
        ensures
            built(
                r,
                json_typed(self.authorized(self.defaults())),
                Method::Get,
                self.endpoint("/bucket/"@ + bucket_id@),
            ),
            r is Ok ==> r->Ok_0.body is Empty,
    {
        let headers = match Self::with_json_type(self.authorized_headers()) {
            Ok(h) => h,
            Err(e) => return Err(e),
        };
        let mut url = self.url("/bucket/");
        url.append(bucket_id);
        assert(url@ =~= self.endpoint("/bucket/"@ + bucket_id@));
        Ok(Request { method: Method::Get, url, headers, body: Body::Empty })
    }

    /// The request that lists every bucket.
    pub fn list_buckets_request(&self) -> (r: Result<Request, ClientError>)
        ensures
            built(
                r,
                json_typed(self.authorized(self.defaults())),
                Method::Get,
                self.endpoint("/bucket"@),
            ),
            r is Ok ==> r->Ok_0.body is Empty,
    {
        let headers = match Self::with_json_type(self.authorized_headers()) {
            Ok(h) => h,
            Err(e) => return Err(e),
        };
        let url = self.url("/bucket");
        Ok(Request { method: Method::Get, url, headers, body: Body::Empty })
    }

    /// The request that sets whether bucket `id` is public, and its media
    /// types and size limit.
    pub fn update_bucket_request(
        &self,
        id: &str,
        public: bool,
        allowed_mime_types: Option<Vec<MimeType>>,
        file_size_limit: Option<u64>,
    ) -> (r: Result<Request, ClientError>)
        ensures
            built_json(
                r,
                json_typed(self.authorized(self.keyed())),
                Method::Put,
                self.endpoint("/bucket/"@ + id@),
                update_bucket_json(id@, public, opt_mime_texts(allowed_mime_types), file_size_limit),
            ),
    {
        let headers = match Self::with_json_type(self.keyed_headers()) {
            Ok(h) => h,
            Err(e) => return Err(e),
        };
        let payload = UpdateBucket {
            id,
            public,
            allowed_mime_types: crate::payloads::opt_mime_strings(&allowed_mime_types),
            file_size_limit,
        };
        let body = payload.to_json();
        let mut url = self.url("/bucket/");
        url.append(id);
        assert(url@ =~= self.endpoint("/bucket/"@ + id@));
        Ok(Request { method: Method::Put, url, headers, body: Body::Json(body) })
    }

    /// The request that deletes every object of bucket `id`.
    pub fn empty_bucket_request(&self, id: &str) -> (r: Result<Request, ClientError>)
        ensures
            built(
                r,
                self.authorized(self.keyed()),
                Method::Post,
                self.endpoint("/bucket/"@ + id@ + "/empty"@),
            ),
            r is Ok ==> r->Ok_0.body is Empty,
    {
        let headers = match self.keyed_headers() {
            Ok(h) => h,
            Err(e) => return Err(e),
        };
        let mut url = self.url("/bucket/");
        url.append(id);
        url.append("/empty");
        assert(url@ =~= self.endpoint("/bucket/"@ + id@ + "/empty"@));
        Ok(Request { method: Method::Post, url, headers, body: Body::Empty })
    }

    /// The request that stores `data` at `path` in `bucket_id`: a new object
    /// (POST), or over an existing one where `update` is set (PUT).
    pub fn upload_or_update_file_request(
        &self,
        bucket_id: &str,
        data: Vec<u8>,
        path: &str,
        update: bool,
        options: Option<FileOptions>,
    ) -> (r: Result<Request, ClientError>)
        ensures
            built(
                r,
                file_headers(self.authorized(self.defaults()), options),
                if update { Method::Put } else { Method::Post },
                self.endpoint("/object/"@ + bucket_id@ + "/"@ + path@),
            ),
            r is Ok ==> bytes_body(r->Ok_0.body, data@),
    {
        let mut headers = match self.authorized_headers() {
            Ok(h) => h,
            Err(e) => return Err(e),
        };
        if let Err(e) = apply_file_options(&mut headers, &options) {
            return Err(e);
        }
        let mut url = self.url("/object/");
        url.append(bucket_id);
        url.append("/");
        url.append(path);
        assert(url@ =~= self.endpoint("/object/"@ + bucket_id@ + "/"@ + path@));
        let method = if update { Method::Put } else { Method::Post };
        Ok(Request { method, url, headers, body: Body::Bytes(data) })
    }

    /// The request that uploads a new object.
    pub fn upload_file_request(
        &self,
        bucket_id: &str,
        data: Vec<u8>,
        path: &str,
        options: Option<FileOptions>,
    ) -> (r: Result<Request, ClientError>)
        ensures
            built(
                r,
                file_headers(self.authorized(self.defaults()), options),
                Method::Post,
                self.endpoint("/object/"@ + bucket_id@ + "/"@ + path@),
            ),
            r is Ok ==> bytes_body(r->Ok_0.body, data@),
    {
        self.upload_or_update_file_request(bucket_id, data, path, false, options)
    }

    /// The request that overwrites an existing object.
    pub fn update_file_request(
        &self,
        bucket_id: &str,
        data: Vec<u8>,
        path: &str,
        options: Option<FileOptions>,
    ) -> (r: Result<Request, ClientError>)
        ensures
            built(
                r,
                file_headers(self.authorized(self.defaults()), options),
                Method::Put,
                self.endpoint("/object/"@ + bucket_id@ + "/"@ + path@),
            ),
            r is Ok ==> bytes_body(r->Ok_0.body, data@),
    {
        self.upload_or_update_file_request(bucket_id, data, path, true, options)
    }

    /// The request that overwrites an existing object; the same request as
    /// `update_file_request`.
    pub fn replace_file_request(
        &self,
        bucket_id: &str,
        data: Vec<u8>,
        path: &str,
        options: Option<FileOptions>,
    ) -> (r: Result<Request, ClientError>)
        ensures
            built(
                r,
                file_headers(self.authorized(self.defaults()), options),
                Method::Put,
                self.endpoint("/object/"@ + bucket_id@ + "/"@ + path@),
            ),
            r is Ok ==> bytes_body(r->Ok_0.body, data@),
    {
        self.upload_or_update_file_request(bucket_id, data, path, true, options)
    }

    /// The request that downloads an object, through image rendering where
    /// the options ask for a transform.
    pub fn download_file_request(
        &self,
        bucket_id: &str,
        path: &str,
        options: Option<DownloadOptions>,
    ) -> (r: Result<Request, ClientError>)
        ensures
            built(
                r,
                self.authorized(self.defaults()),
                Method::Get,
                self.endpoint(download_segment(options) + bucket_id@ + "/"@ + path@),
            ),
            r is Ok ==> r->Ok_0.body is Empty,
    {
        let headers = match self.authorized_headers() {
            Ok(h) => h,
            Err(e) => return Err(e),
        };
        let segment = match &options {
            Some(o) => if o.transform.is_some() {
                "/render/image/authenticated/"
            } else {
                "/object/"
            },
            None => "/object/",
        };
        let mut url = self.url(segment);
        url.append(bucket_id);
        url.append("/");
        url.append(path);
        assert(url@ =~= self.endpoint(download_segment(options) + bucket_id@ + "/"@ + path@));
        Ok(Request { method: Method::Get, url, headers, body: Body::Empty })
    }

    /// The request that deletes an object.
    pub fn delete_file_request(&self, bucket_id: &str, path: &str) -> (r: Result<
        Request,
        ClientError,
    >)
        ensures
            built(
                r,
                self.authorized(self.defaults()),
                Method::Delete,
                self.endpoint("/object/"@ + bucket_id@ + "/"@ + path@),
            ),
            r is Ok ==> r->Ok_0.body is Empty,
    {
        let headers = match self.authorized_headers() {
            Ok(h) => h,
            Err(e) => return Err(e),
        };
        let mut url = self.url("/object/");
        url.append(bucket_id);
        url.append("/");
        url.append(path);
        assert(url@ =~= self.endpoint("/object/"@ + bucket_id@ + "/"@ + path@));
        Ok(Request { method: Method::Delete, url, headers, body: Body::Empty })
    }

    /// The request that lists the objects and folders under `path` (the root
    /// of the bucket where there is none) that match the options.
    pub fn list_files_request(
        &self,
        bucket_id: &str,
        path: Option<&str>,
        options: Option<FileSearchOptions>,
    ) -> (r: Result<Request, ClientError>)
        ensures
            built_json(
                r,
                self.authorized(json_typed(self.defaults())),
                Method::Post,
                self.endpoint("/object/list/"@ + bucket_id@),
                list_files_json(prefix_or_root(path), options),
            ),
    {
        let mut headers = self.headers.duplicate();
        if let Err(e) = headers.insert(CONTENT_TYPE, APPLICATION_JSON) {
            return Err(e);
        }
        if let Err(e) = self.authorize(&mut headers) {
            return Err(e);
        }
        let payload = ListFilesPayload::new(path, options);
        let body = payload.to_json();
        let mut url = self.url("/object/list/");
        url.append(bucket_id);
        assert(url@ =~= self.endpoint("/object/list/"@ + bucket_id@));
        Ok(Request { method: Method::Post, url, headers, body: Body::Json(body) })
    }
}

/// The rendering settings among download options, if any.
pub open spec fn transform_of<'a>(o: Option<DownloadOptions<'a>>) -> Option<TransformOptions<'a>> {
    match o {
        Some(d) => d.transform,
        None => None,
    }
}

impl StorageClient {
    /// The request that copies `from_path` of `from_bucket` to `to_path` (or
    /// the same path) of `to_bucket` (or the same bucket).
    pub fn copy_file_request(
        &self,
        from_bucket: &str,
        to_bucket: Option<&str>,
        from_path: &str,
        to_path: Option<&str>,
        copy_metadata: bool,
    ) -> (r: Result<Request, ClientError>)
        ensures
            built_json(
                r,
                self.authorized(json_typed(self.defaults())),
                Method::Post,
                self.endpoint("/object/copy"@),
                copy_json(
                    transfer_of(from_bucket@, opt_view(to_bucket), from_path@, opt_view(to_path)),
                    copy_metadata,
                ),
            ),
    {
        let mut headers = self.headers.duplicate();
        if let Err(e) = headers.insert(CONTENT_TYPE, APPLICATION_JSON) {
            return Err(e);
        }
        if let Err(e) = self.authorize(&mut headers) {
            return Err(e);
        }
        let payload = CopyFilePayload::new(
            from_bucket,
            to_bucket,
            from_path,
            to_path,
            copy_metadata,
        );
        let body = payload.to_json();
        let url = self.url("/object/copy");
        Ok(Request { method: Method::Post, url, headers, body: Body::Json(body) })
    }

    /// The request that moves `from_path` of `from_bucket` to `to_path` of
    /// `to_bucket` (or the same bucket).
    pub fn move_file_request(
        &self,
        from_bucket: &str,
        to_bucket: Option<&str>,
        from_path: &str,
        to_path: &str,
    ) -> (r: Result<Request, ClientError>)
        ensures
            built_json(
                r,
                self.authorized(json_typed(self.defaults())),
                Method::Post,
                self.endpoint("/object/move"@),
                move_json(transfer_of(from_bucket@, opt_view(to_bucket), from_path@, Some(to_path@))),
            ),
    {
        let mut headers = self.headers.duplicate();
        if let Err(e) = headers.insert(CONTENT_TYPE, APPLICATION_JSON) {
            return Err(e);
        }
        if let Err(e) = self.authorize(&mut headers) {
            return Err(e);
        }
        let payload = MoveFilePayload::new(from_bucket, to_bucket, from_path, to_path);
        let body = payload.to_json();
        let url = self.url("/object/move");
        Ok(Request { method: Method::Post, url, headers, body: Body::Json(body) })
    }

    /// The request that signs a download URL for an object, valid for
    /// `expires_in` seconds, with the rendering settings of the options.
    pub fn create_signed_url_request(
        &self,
        bucket_id: &str,
        path: &str,
        expires_in: u64,
        options: Option<DownloadOptions>,
    ) -> (r: Result<Request, ClientError>)
        ensures
            built_json(
                r,
                self.authorized(json_typed(self.defaults())),
                Method::Post,
                self.endpoint("/object/sign/"@ + bucket_id@ + "/"@ + path@),
                signed_url_json(expires_in, transform_of(options)),
            ),
    {
        let mut headers = self.headers.duplicate();
        if let Err(e) = headers.insert(CONTENT_TYPE, APPLICATION_JSON) {
            return Err(e);
        }
        if let Err(e) = self.authorize(&mut headers) {
            return Err(e);
        }
        let transform = match options {
            Some(o) => o.transform,
            None => None,
        };
        let payload = CreateSignedUrlPayload { expires_in, transform };
        let body = payload.to_json();
        let mut url = self.url("/object/sign/");
        url.append(bucket_id);
        url.append("/");
        url.append(path);
        assert(url@ =~= self.endpoint("/object/sign/"@ + bucket_id@ + "/"@ + path@));
        Ok(Request { method: Method::Post, url, headers, body: Body::Json(body) })
    }

    /// The request that signs download URLs for several objects of a bucket.
    pub fn create_multiple_signed_urls_request(
        &self,
        bucket_id: &str,
        paths: Vec<&str>,
        expires_in: u64,
    ) -> (r: Result<Request, ClientError>)
        ensures
            built_json(
                r,
                self.authorized(json_typed(self.defaults())),
                Method::Post,
                self.endpoint("/object/sign/"@ + bucket_id@),
                multiple_signed_urls_json(expires_in, paths@.map_values(|p: &str| p@)),
            ),
    {
        let mut headers = self.headers.duplicate();
        if let Err(e) = headers.insert(CONTENT_TYPE, APPLICATION_JSON) {
            return Err(e);
        }
        if let Err(e) = self.authorize(&mut headers) {
            return Err(e);
        }
        let payload = CreateMultipleSignedUrlsPayload::new(expires_in, &paths);
        let body = payload.to_json();
        let mut url = self.url("/object/sign/");
        url.append(bucket_id);
        assert(url@ =~= self.endpoint("/object/sign/"@ + bucket_id@));
        Ok(Request { method: Method::Post, url, headers, body: Body::Json(body) })
    }

    /// The request that signs an upload URL for `path` of `bucket_id`.
    pub fn create_signed_upload_url_request(&self, bucket_id: &str, path: &str) -> (r: Result<
        Request,
        ClientError,
    >)
        ensures
            built(
                r,
                self.authorized(self.defaults()),
                Method::Post,
                self.endpoint("/object/upload/sign/"@ + bucket_id@ + "/"@ + path@),
            ),
            r is Ok ==> r->Ok_0.body is Empty,
    {
        let headers = match self.authorized_headers() {
            Ok(h) => h,
            Err(e) => return Err(e),
        };
        let mut url = self.url("/object/upload/sign/");
        url.append(bucket_id);
        url.append("/");
        url.append(path);
        assert(url@ =~= self.endpoint("/object/upload/sign/"@ + bucket_id@ + "/"@ + path@));
        Ok(Request { method: Method::Post, url, headers, body: Body::Empty })
    }

    /// The request that uploads `data` through a signed upload URL, with the
    /// token the signing gave.
    pub fn upload_to_signed_url_request(
        &self,
        bucket_id: &str,
        token: &str,
        data: Vec<u8>,
        path: &str,
        options: Option<FileOptions>,
    ) -> (r: Result<Request, ClientError>)
        ensures
            built(
                r,
                file_headers(self.authorized(self.defaults()), options),
                Method::Put,
                self.endpoint(
                    "/object/upload/sign/"@ + bucket_id@ + "/"@ + path@ + "?token="@ + token@,
                ),
            ),
            r is Ok ==> bytes_body(r->Ok_0.body, data@),
    {
        let mut headers = match self.authorized_headers() {
            Ok(h) => h,
            Err(e) => return Err(e),
        };
        if let Err(e) = apply_file_options(&mut headers, &options) {
            return Err(e);
        }
        let mut url = self.url("/object/upload/sign/");
        url.append(bucket_id);
        url.append("/");
        url.append(path);
        url.append("?token=");
        url.append(token);
        assert(url@ =~= self.endpoint(
            "/object/upload/sign/"@ + bucket_id@ + "/"@ + path@ + "?token="@ + token@,
        ));
        Ok(Request { method: Method::Put, url, headers, body: Body::Bytes(data) })
    }
}

} // verus!
