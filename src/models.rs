use vstd::prelude::*;

verus! {

/// The direction of a listing's sort.
#[derive(Clone, Copy, Debug, PartialEq, Eq, Structural)]
pub enum Order {
    Asc,
    Desc,
}

/// The column a listing is sorted by.
#[derive(Clone, Copy, Debug, PartialEq, Eq, Structural)]
pub enum Column {
    Name,
    ID,
    UpdatedAt,
    CreatedAt,
    LastAccessedAt,
}

/// How a listing is sorted.
#[derive(Clone, Copy, Debug, PartialEq, Eq, Structural)]
pub struct SortBy {
    pub column: Column,
    pub order: Order,
}

impl Default for Order {
    fn default() -> (r: Order)
        ensures
            r == Order::Asc,
    {
        Order::Asc
    }
}

impl Default for Column {
    fn default() -> (r: Column)
        ensures
            r == Column::Name,
    {
        Column::Name
    }
}

impl Default for SortBy {
    /// By name, ascending.
    fn default() -> (r: SortBy)
        ensures
            r == (SortBy { column: Column::Name, order: Order::Asc }),
    {
        SortBy { column: Column::Name, order: Order::Asc }
    }
}

/// Filters for a listing of the objects of a bucket.
#[derive(Clone, Debug)]
pub struct FileSearchOptions<'a> {
    /// The number of entries to return.
    pub limit: Option<u32>,
    /// The number of entries to skip.
    pub offset: Option<u32>,
    /// The column and direction to sort by.
    pub sort_by: Option<SortBy>,
    /// A substring that object names must contain.
    pub search: Option<&'a str>,
}

impl<'a> Default for FileSearchOptions<'a> {
    /// No filter at all.
    fn default() -> (r: FileSearchOptions<'a>)
        ensures
            r.limit is None && r.offset is None && r.sort_by is None && r.search is None,
    {
        FileSearchOptions { limit: None, offset: None, sort_by: None, search: None }
    }
}

/// Server-side image rendering asked for with a download.
#[derive(Clone, Debug)]
pub struct TransformOptions<'a> {
    /// The width of the image in pixels.
    pub width: Option<u64>,
    /// The height of the image in pixels.
    pub height: Option<u64>,
    /// The resize mode: `cover`, `contain` or `fill`.
    pub resize: Option<&'a str>,
    /// The image format; `origin` keeps that of the stored image.
    pub format: Option<&'a str>,
    /// The quality of the image, from 20 to 100.
    pub quality: Option<u8>,
}

/// How a file is to be downloaded.
#[derive(Clone, Debug)]
pub struct DownloadOptions<'a> {
    pub transform: Option<TransformOptions<'a>>,
    /// Whether the URL asks the browser to save the file.
    pub download: Option<bool>,
}

/// Settings of one upload.
#[derive(Clone, Debug)]
pub struct FileOptions<'a> {
    /// How long, in seconds, browsers and the CDN may cache the object.
    pub cache_control: Option<u64>,
    /// The content type to store the object with.
    pub content_type: Option<&'a str>,
    /// Duplex streaming mode.
    pub duplex: Option<&'a str>,
    /// Whether an existing object at the path is overwritten.
    pub upsert: bool,
}

impl<'a> Default for FileOptions<'a> {
    /// No cache or content type set, and no overwrite.
    fn default() -> (r: FileOptions<'a>)
        ensures
            r.cache_control is None && r.content_type is None && r.duplex is None && !r.upsert,
    {
        FileOptions { cache_control: None, content_type: None, duplex: None, upsert: false }
    }
}

/// One file to upload: where it goes, its bytes, and its settings.
#[derive(Clone, Debug)]
pub struct Upload<'a> {
    /// The path of the file inside its bucket.
    pub path: &'a str,
    pub file_body: Vec<u8>,
    pub file_options: Option<FileOptions<'a>>,
}

/// A bucket as the service describes it.
#[derive(Clone, Debug)]
pub struct Bucket {
    pub id: String,
    pub name: String,
    pub owner: String,
    pub public: bool,
    pub file_size_limit: Option<i64>,
    pub allowed_mime_types: Option<Vec<String>>,
    pub created_at: String,
    pub updated_at: String,
}

/// What the service records of a stored object.
#[derive(Clone, Debug)]
pub struct Metadata {
    pub etag: String,
    pub size: i32,
    pub mimetype: String,
    pub cache_control: String,
    pub last_modified: String,
    pub content_length: i32,
    pub http_status_code: i32,
}

/// An entry of a listing: a file, or a folder (with its name alone filled in).
#[derive(Clone, Debug)]
pub struct FileObject {
    pub name: String,
    pub id: String,
    pub updated_at: String,
    pub created_at: String,
    pub last_accessed_at: String,
    pub metadata: Metadata,
    pub bucket_id: Option<String>,
    pub owner: Option<String>,
    pub buckets: Option<serde_json::Value>,
}

/// The identity of an uploaded object.
#[derive(Clone, Debug)]
pub struct ObjectResponse {
    pub id: String,
    pub key: String,
}

/// The answer to the creation of a bucket.
#[derive(Clone, Debug)]
pub struct CreateBucketResponse {
    pub name: String,
}

/// A confirmation message.
#[derive(Clone, Debug)]
pub struct BucketResponse {
    pub message: String,
}

/// A signed download path, relative to the storage API.
#[derive(Clone, Debug)]
pub struct SignedUrlResponse {
    pub signed_url: String,
}

/// A signed upload path and the token it carries.
#[derive(Clone, Debug)]
pub struct SignedUploadUrlResponse {
    pub url: String,
    pub token: String,
}

/// The key of a copied object.
#[derive(Clone, Debug)]
pub struct CopyFileResponse {
    pub key: String,
}

/// The key of an object uploaded through a signed URL.
#[derive(Clone, Debug)]
pub struct UploadToSignedUrlResponse {
    pub key: String,
}

} // verus!
