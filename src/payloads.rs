use vstd::prelude::*;

use crate::json::{
    bool_text, json_bool, json_object, json_opt_number, json_opt_string_array, json_string_array,
    json_string_of, member_texts, object_text, opt_number_text, opt_string_array_text, opt_texts,
    quote, string_array_text,
};
use crate::mime::MimeType;
use crate::models::{Column, FileSearchOptions, Order, SortBy, TransformOptions};
use crate::text::{decimal, decimal_string, texts};

verus! {

/// A JSON object member set aside: its key and the text of its value.
pub type Member = (Seq<char>, Seq<char>);

/// The text of an optional string: a JSON string, or `null`.
pub open spec fn json_opt_string(s: Option<&str>) -> Seq<char> {
    match s {
        Some(v) => json_string_of(v@),
        None => "null"@,
    }
}

/// `ms` with the member `key` added where `value` is present.
pub open spec fn push_present(ms: Seq<Member>, key: Seq<char>, value: Option<Seq<char>>) -> Seq<
    Member,
> {
    match value {
        Some(v) => ms.push((key, v)),
        None => ms,
    }
}

/// The media type strings of a list of media types.
pub open spec fn mime_texts(v: Seq<MimeType>) -> Seq<Seq<char>> {
    v.map_values(|m: MimeType| m.spec_str())
}

/// The media type strings of an optional list of media types.
pub open spec fn opt_mime_texts(v: Option<Vec<MimeType>>) -> Option<Seq<Seq<char>>> {
    match v {
        Some(items) => Some(mime_texts(items@)),
        None => None,
    }
}

/// The media type strings of `types`, in order.
pub fn mime_strings(types: &Vec<MimeType>) -> (r: Vec<String>)
    ensures
        texts(r@) == mime_texts(types@),
{
    let mut r: Vec<String> = Vec::new();
    let mut i: usize = 0;
    while i < types.len()
        invariant
            i <= types.len(),
            r@.len() == i,
            forall|j: int| 0 <= j < i ==> r@[j]@ == types@[j].spec_str(),
        decreases types.len() - i,
    {
        r.push(types[i].as_str().to_owned());
        i = i + 1;
    }
    assert(texts(r@) =~= mime_texts(types@));
    r
}

/// The media type strings of an optional list of media types.
pub fn opt_mime_strings(types: &Option<Vec<MimeType>>) -> (r: Option<Vec<String>>)
    ensures
        opt_texts(r) == opt_mime_texts(*types),
{
    match types {
        Some(v) => Some(mime_strings(v)),
        None => None,
    }
}

fn push_member(members: &mut Vec<(String, String)>, key: &str, value: String)
    ensures
        member_texts(final(members)@) == member_texts(old(members)@).push((key@, value@)),
{
    let ghost before = member_texts(members@);
    members.push((key.to_owned(), value));
    assert(member_texts(members@) =~= before.push((key@, value@)));
}

/// The payload that creates a bucket.
pub struct CreateBucket<'a> {
    pub id: Option<&'a str>,
    pub name: &'a str,
    pub public: bool,
    pub allowed_mime_types: Option<Vec<String>>,
    pub file_size_limit: Option<u64>,
}

impl<'a> CreateBucket<'a> {
    /// The payload for a bucket called `name`; its id is `id`, or `name`
    /// where no id is given.
    pub fn new(
        name: &'a str,
        id: Option<&'a str>,
        public: bool,
        allowed_mime_types: Option<Vec<MimeType>>,
        file_size_limit: Option<u64>,
    ) -> (r: CreateBucket<'a>)
        ensures
            r.id == Some(
                match id {
                    Some(i) => i,
                    None => name,
                },
            ),
            r.name == name,
            r.public == public,
            opt_texts(r.allowed_mime_types) == opt_mime_texts(allowed_mime_types),
            r.file_size_limit == file_size_limit,
    {
        let chosen = match id {
            Some(i) => i,
            None => name,
        };
        CreateBucket {
            id: Some(chosen),
            name,
            public,
            allowed_mime_types: opt_mime_strings(&allowed_mime_types),
            file_size_limit,
        }
    }

    pub open spec fn spec_json(&self) -> Seq<char> {
        json_object(
            seq![
                ("id"@, json_opt_string(self.id)),
                ("name"@, json_string_of(self.name@)),
                ("public"@, json_bool(self.public)),
                ("allowed_mime_types"@, json_opt_string_array(opt_texts(self.allowed_mime_types))),
                ("file_size_limit"@, json_opt_number(self.file_size_limit)),
            ],
        )
    }

    /// The payload as JSON text.
    pub fn to_json(&self) -> (r: String)
        ensures
            r@ == self.spec_json(),
    {
        let id = opt_string_text(self.id);
        let name = quote(self.name);
        let types = opt_string_array_text(&self.allowed_mime_types);
        let mut members: Vec<(String, String)> = Vec::new();
        push_member(&mut members, "id", id);
        push_member(&mut members, "name", name);
        push_member(&mut members, "public", bool_text(self.public));
        push_member(&mut members, "allowed_mime_types", types);
        push_member(&mut members, "file_size_limit", opt_number_text(self.file_size_limit));
        let r = object_text(&members);
        assert(member_texts(members@) =~= seq![
            ("id"@, json_opt_string(self.id)),
            ("name"@, json_string_of(self.name@)),
            ("public"@, json_bool(self.public)),
            ("allowed_mime_types"@, json_opt_string_array(opt_texts(self.allowed_mime_types))),
            ("file_size_limit"@, json_opt_number(self.file_size_limit)),
        ]);
        r
    }
}

/// The payload that changes a bucket's settings.
pub struct UpdateBucket<'a> {
    pub id: &'a str,
    pub public: bool,
    pub allowed_mime_types: Option<Vec<String>>,
    pub file_size_limit: Option<u64>,
}

impl<'a> UpdateBucket<'a> {
    pub open spec fn spec_json(&self) -> Seq<char> {
        json_object(
            seq![
                ("id"@, json_string_of(self.id@)),
                ("public"@, json_bool(self.public)),
                ("allowed_mime_types"@, json_opt_string_array(opt_texts(self.allowed_mime_types))),
                ("file_size_limit"@, json_opt_number(self.file_size_limit)),
            ],
        )
    }

    /// The payload as JSON text.
    pub fn to_json(&self) -> (r: String)
        ensures
            r@ == self.spec_json(),
    {
        let id = quote(self.id);
        let types = opt_string_array_text(&self.allowed_mime_types);
        let mut members: Vec<(String, String)> = Vec::new();
        push_member(&mut members, "id", id);
        push_member(&mut members, "public", bool_text(self.public));
        push_member(&mut members, "allowed_mime_types", types);
        push_member(&mut members, "file_size_limit", opt_number_text(self.file_size_limit));
        let r = object_text(&members);
        assert(member_texts(members@) =~= seq![
            ("id"@, json_string_of(self.id@)),
            ("public"@, json_bool(self.public)),
            ("allowed_mime_types"@, json_opt_string_array(opt_texts(self.allowed_mime_types))),
            ("file_size_limit"@, json_opt_number(self.file_size_limit)),
        ]);
        r
    }
}

/// A JSON string for an optional string, or `null`.
pub fn opt_string_text(s: Option<&str>) -> (r: String)
    ensures
        r@ == json_opt_string(s),
{
    match s {
        Some(v) => quote(v),
        None => "null".to_owned(),
    }
}

/// The text of a sort column.
pub open spec fn column_json(c: Column) -> Seq<char> {
    match c {
        Column::Name => "\"name\""@,
        Column::ID => "\"id\""@,
        Column::UpdatedAt => "\"updated_at\""@,
        Column::CreatedAt => "\"created_at\""@,
        Column::LastAccessedAt => "\"last_accessed_at\""@,
    }
}

/// The text of a sort direction.
pub open spec fn order_json(o: Order) -> Seq<char> {
    match o {
        Order::Asc => "\"asc\""@,
        Order::Desc => "\"desc\""@,
    }
}

/// The text of a sort setting.
pub open spec fn sort_json(s: SortBy) -> Seq<char> {
    json_object(seq![("column"@, column_json(s.column)), ("order"@, order_json(s.order))])
}

/// An optional small number as text.
pub open spec fn opt_u32_json(n: Option<u32>) -> Option<Seq<char>> {
    match n {
        Some(v) => Some(decimal(v as nat)),
        None => None,
    }
}

/// An optional sort setting as text.
pub open spec fn opt_sort_json(s: Option<SortBy>) -> Option<Seq<char>> {
    match s {
        Some(v) => Some(sort_json(v)),
        None => None,
    }
}

/// An optional string as JSON text.
pub open spec fn opt_str_json(s: Option<&str>) -> Option<Seq<char>> {
    match s {
        Some(v) => Some(json_string_of(v@)),
        None => None,
    }
}

fn column_text(c: Column) -> (r: String)
    ensures
        r@ == column_json(c),
{
    match c {
        Column::Name => "\"name\"".to_owned(),
        Column::ID => "\"id\"".to_owned(),
        Column::UpdatedAt => "\"updated_at\"".to_owned(),
        Column::CreatedAt => "\"created_at\"".to_owned(),
        Column::LastAccessedAt => "\"last_accessed_at\"".to_owned(),
    }
}

fn order_text(o: Order) -> (r: String)
    ensures
        r@ == order_json(o),
{
    match o {
        Order::Asc => "\"asc\"".to_owned(),
        Order::Desc => "\"desc\"".to_owned(),
    }
}

/// A sort setting as JSON text.
pub fn sort_text(s: SortBy) -> (r: String)
    ensures
        r@ == sort_json(s),
{
    let mut members: Vec<(String, String)> = Vec::new();
    push_member(&mut members, "column", column_text(s.column));
    push_member(&mut members, "order", order_text(s.order));
    assert(member_texts(members@) =~= seq![
        ("column"@, column_json(s.column)),
        ("order"@, order_json(s.order)),
    ]);
    object_text(&members)
}

/// The payload that lists the objects of a bucket.
pub struct ListFilesPayload<'a> {
    pub limit: Option<u32>,
    pub offset: Option<u32>,
    pub sort_by: Option<SortBy>,
    /// Only names that start with this; empty for the root of the bucket.
    pub prefix: &'a str,
    pub search: Option<&'a str>,
}

impl<'a> ListFilesPayload<'a> {
    /// The listing of the folder `path` (the root where there is none) with
    /// the given filters (none where there are none).
    pub fn new(path: Option<&'a str>, options: Option<FileSearchOptions<'a>>) -> (r:
        ListFilesPayload<'a>)
        ensures
            r.prefix@ == prefix_or_root(path),
            r.spec_json() == list_files_json(prefix_or_root(path), options),
            match options {
                Some(o) => r.limit == o.limit && r.offset == o.offset && r.sort_by == o.sort_by
                    && r.search == o.search,
                None => r.limit is None && r.offset is None && r.sort_by is None
                    && r.search is None,
            },
    {
        let o = match options {
            Some(o) => o,
            None => FileSearchOptions::default(),
        };
        let prefix = match path {
            Some(p) => p,
            None => "",
        };
        proof {
            reveal_strlit("");
        }
        let r = ListFilesPayload {
            limit: o.limit,
            offset: o.offset,
            sort_by: o.sort_by,
            prefix,
            search: o.search,
        };
        assert(r.prefix@ == prefix_or_root(path));
        assert(r.spec_members() == list_files_members(
            o.limit,
            o.offset,
            o.sort_by,
            prefix_or_root(path),
            o.search,
        ));
        r
    }

    pub open spec fn spec_members(&self) -> Seq<Member> {
        list_files_members(self.limit, self.offset, self.sort_by, self.prefix@, self.search)
    }

    pub open spec fn spec_json(&self) -> Seq<char> {
        json_object(self.spec_members())
    }

    /// The payload as JSON text.
    pub fn to_json(&self) -> (r: String)
        ensures
            r@ == self.spec_json(),
    {
        let mut members: Vec<(String, String)> = Vec::new();
        let ghost mut expect: Seq<Member> = Seq::empty();
        assert(member_texts(members@) =~= expect);
        if let Some(n) = self.limit {
            push_member(&mut members, "limit", decimal_string(n as u64));
        }
        proof {
            expect = push_present(expect, "limit"@, opt_u32_json(self.limit));
        }
        if let Some(n) = self.offset {
            push_member(&mut members, "offset", decimal_string(n as u64));
        }
        proof {
            expect = push_present(expect, "offset"@, opt_u32_json(self.offset));
        }
        if let Some(s) = self.sort_by {
            push_member(&mut members, "sortBy", sort_text(s));
        }
        proof {
            expect = push_present(expect, "sortBy"@, opt_sort_json(self.sort_by));
        }
        push_member(&mut members, "prefix", quote(self.prefix));
        proof {
            expect = expect.push(("prefix"@, json_string_of(self.prefix@)));
        }
        if let Some(q) = self.search {
            push_member(&mut members, "search", quote(q));
        }
        proof {
            expect = push_present(expect, "search"@, opt_str_json(self.search));
        }
        assert(member_texts(members@) == self.spec_members());
        object_text(&members)
    }
}

/// The members of a listing payload: `prefix` always, each filter where it
/// is set.
pub open spec fn list_files_members(
    limit: Option<u32>,
    offset: Option<u32>,
    sort_by: Option<SortBy>,
    prefix: Seq<char>,
    search: Option<&str>,
) -> Seq<Member> {
    push_present(
        push_present(
            push_present(
                push_present(Seq::empty(), "limit"@, opt_u32_json(limit)),
                "offset"@,
                opt_u32_json(offset),
            ),
            "sortBy"@,
            opt_sort_json(sort_by),
        ).push(("prefix"@, json_string_of(prefix))),
        "search"@,
        opt_str_json(search),
    )
}

/// The folder a listing starts from: the path given, or the root of the
/// bucket (the empty prefix).
pub open spec fn prefix_or_root(path: Option<&str>) -> Seq<char> {
    match path {
        Some(p) => p@,
        None => Seq::empty(),
    }
}

/// The JSON text that lists the folder `prefix` with the given filters (none
/// where there are none).
pub open spec fn list_files_json(prefix: Seq<char>, options: Option<FileSearchOptions>) -> Seq<
    char,
> {
    match options {
        Some(o) => json_object(list_files_members(o.limit, o.offset, o.sort_by, prefix, o.search)),
        None => json_object(list_files_members(None, None, None, prefix, None)),
    }
}

/// Where a copy or a move takes an object from, and where it puts it:
/// ((source bucket, source key), (destination bucket, destination key)).
pub type Transfer = ((Seq<char>, Seq<char>), (Seq<char>, Seq<char>));

/// The transfer that a copy or move asks for: the destination bucket is the
/// source bucket where none is given, the destination key the source key
/// where none is given.
pub open spec fn transfer_of(
    from_bucket: Seq<char>,
    to_bucket: Option<Seq<char>>,
    from_path: Seq<char>,
    to_path: Option<Seq<char>>,
) -> Transfer {
    (
        (from_bucket, from_path),
        (
            match to_bucket {
                Some(b) => b,
                None => from_bucket,
            },
            match to_path {
                Some(p) => p,
                None => from_path,
            },
        ),
    )
}

/// The view of an optional string.
pub open spec fn opt_view(s: Option<&str>) -> Option<Seq<char>> {
    match s {
        Some(v) => Some(v@),
        None => None,
    }
}

/// The payload that copies an object.
pub struct CopyFilePayload<'a> {
    pub bucket_id: &'a str,
    pub source_key: &'a str,
    pub destination_bucket: &'a str,
    pub destination_key: &'a str,
    pub copy_metadata: bool,
}

impl<'a> CopyFilePayload<'a> {
    pub open spec fn transfer(&self) -> Transfer {
        ((self.bucket_id@, self.source_key@), (self.destination_bucket@, self.destination_key@))
    }

    pub fn new(
        from_bucket: &'a str,
        to_bucket: Option<&'a str>,
        from_path: &'a str,
        to_path: Option<&'a str>,
        copy_metadata: bool,
    ) -> (r: CopyFilePayload<'a>)
        ensures
            r.transfer() == transfer_of(
                from_bucket@,
                opt_view(to_bucket),
                from_path@,
                opt_view(to_path),
            ),
            r.copy_metadata == copy_metadata,
    {
        CopyFilePayload {
            bucket_id: from_bucket,
            source_key: from_path,
            destination_bucket: match to_bucket {
                Some(b) => b,
                None => from_bucket,
            },
            destination_key: match to_path {
                Some(p) => p,
                None => from_path,
            },
            copy_metadata,
        }
    }

    pub open spec fn spec_json(&self) -> Seq<char> {
        copy_json(self.transfer(), self.copy_metadata)
    }

    /// The payload as JSON text.
    pub fn to_json(&self) -> (r: String)
        ensures
            r@ == self.spec_json(),
    {
        let mut members: Vec<(String, String)> = Vec::new();
        push_member(&mut members, "bucketId", quote(self.bucket_id));
        push_member(&mut members, "sourceKey", quote(self.source_key));
        push_member(&mut members, "destinationBucket", quote(self.destination_bucket));
        push_member(&mut members, "destinationKey", quote(self.destination_key));
        push_member(&mut members, "copyMetadata", bool_text(self.copy_metadata));
        assert(member_texts(members@) =~= seq![
            ("bucketId"@, json_string_of(self.bucket_id@)),
            ("sourceKey"@, json_string_of(self.source_key@)),
            ("destinationBucket"@, json_string_of(self.destination_bucket@)),
            ("destinationKey"@, json_string_of(self.destination_key@)),
            ("copyMetadata"@, json_bool(self.copy_metadata)),
        ]);
        object_text(&members)
    }
}

/// The payload that moves an object.
pub struct MoveFilePayload<'a> {
    pub bucket_id: &'a str,
    pub source_key: &'a str,
    pub destination_bucket: &'a str,
    pub destination_key: &'a str,
}

impl<'a> MoveFilePayload<'a> {
    pub open spec fn transfer(&self) -> Transfer {
        ((self.bucket_id@, self.source_key@), (self.destination_bucket@, self.destination_key@))
    }

    pub fn new(
        from_bucket: &'a str,
        to_bucket: Option<&'a str>,
        from_path: &'a str,
        to_path: &'a str,
    ) -> (r: MoveFilePayload<'a>)
        ensures
            r.transfer() == transfer_of(
                from_bucket@,
                opt_view(to_bucket),
                from_path@,
                Some(to_path@),
            ),
    {
        MoveFilePayload {
            bucket_id: from_bucket,
            source_key: from_path,
            destination_bucket: match to_bucket {
                Some(b) => b,
                None => from_bucket,
            },
            destination_key: to_path,
        }
    }

    pub open spec fn spec_json(&self) -> Seq<char> {
        move_json(self.transfer())
    }

    /// The payload as JSON text.
    pub fn to_json(&self) -> (r: String)
        ensures
            r@ == self.spec_json(),
    {
        let mut members: Vec<(String, String)> = Vec::new();
        push_member(&mut members, "bucketId", quote(self.bucket_id));
        push_member(&mut members, "sourceKey", quote(self.source_key));
        push_member(&mut members, "destinationBucket", quote(self.destination_bucket));
        push_member(&mut members, "destinationKey", quote(self.destination_key));
        assert(member_texts(members@) =~= seq![
            ("bucketId"@, json_string_of(self.bucket_id@)),
            ("sourceKey"@, json_string_of(self.source_key@)),
            ("destinationBucket"@, json_string_of(self.destination_bucket@)),
            ("destinationKey"@, json_string_of(self.destination_key@)),
        ]);
        object_text(&members)
    }
}

/// Moving an object and then moving it from where it went back to where it
/// was asks for the reverse transfer: the second move's source is the first
/// one's destination and its destination the first one's source.
pub proof fn lemma_move_back_reverses(
    from_bucket: Seq<char>,
    to_bucket: Option<Seq<char>>,
    from_path: Seq<char>,
    to_path: Seq<char>,
)
    ensures
        ({
            let there = transfer_of(from_bucket, to_bucket, from_path, Some(to_path));
            let back = transfer_of(there.1.0, Some(there.0.0), there.1.1, Some(there.0.1));
            back.0 == there.1 && back.1 == there.0
        }),
        to_bucket is None ==> ({
            let there = transfer_of(from_bucket, None, from_path, Some(to_path));
            let back = transfer_of(from_bucket, None, to_path, Some(from_path));
            back.0 == there.1 && back.1 == there.0
        }),
{
}

/// An optional byte-sized number as text, or `null`.
pub open spec fn json_opt_u8(n: Option<u8>) -> Seq<char> {
    match n {
        Some(v) => decimal(v as nat),
        None => "null"@,
    }
}

/// The text of image rendering settings: every setting, `null` where unset.
pub open spec fn transform_json(t: TransformOptions) -> Seq<char> {
    json_object(
        seq![
            ("width"@, json_opt_number(t.width)),
            ("height"@, json_opt_number(t.height)),
            ("resize"@, json_opt_string(t.resize)),
            ("format"@, json_opt_string(t.format)),
            ("quality"@, json_opt_u8(t.quality)),
        ],
    )
}

/// Image rendering settings as JSON text.
pub fn transform_text(t: &TransformOptions) -> (r: String)
    ensures
        r@ == transform_json(*t),
{
    let resize = opt_string_text(t.resize);
    let format = opt_string_text(t.format);
    let quality = match t.quality {
        Some(q) => decimal_string(q as u64),
        None => "null".to_owned(),
    };
    let mut members: Vec<(String, String)> = Vec::new();
    push_member(&mut members, "width", opt_number_text(t.width));
    push_member(&mut members, "height", opt_number_text(t.height));
    push_member(&mut members, "resize", resize);
    push_member(&mut members, "format", format);
    push_member(&mut members, "quality", quality);
    assert(member_texts(members@) =~= seq![
        ("width"@, json_opt_number(t.width)),
        ("height"@, json_opt_number(t.height)),
        ("resize"@, json_opt_string(t.resize)),
        ("format"@, json_opt_string(t.format)),
        ("quality"@, json_opt_u8(t.quality)),
    ]);
    object_text(&members)
}

/// An optional rendering setting as text.
pub open spec fn opt_transform_json(t: Option<TransformOptions>) -> Option<Seq<char>> {
    match t {
        Some(v) => Some(transform_json(v)),
        None => None,
    }
}

/// The payload that signs a download URL.
pub struct CreateSignedUrlPayload<'a> {
    /// How long the URL stays valid, in seconds.
    pub expires_in: u64,
    pub transform: Option<TransformOptions<'a>>,
}

impl<'a> CreateSignedUrlPayload<'a> {
    /// `expiresIn` always, `transform` where rendering is asked for.
    pub open spec fn spec_json(&self) -> Seq<char> {
        signed_url_json(self.expires_in, self.transform)
    }

    /// The payload as JSON text.
    pub fn to_json(&self) -> (r: String)
        ensures
            r@ == self.spec_json(),
    {
        let mut members: Vec<(String, String)> = Vec::new();
        push_member(&mut members, "expiresIn", decimal_string(self.expires_in));
        match &self.transform {
            Some(t) => push_member(&mut members, "transform", transform_text(t)),
            None => {},
        }
        assert(member_texts(members@) =~= push_present(
            seq![("expiresIn"@, decimal(self.expires_in as nat))],
            "transform"@,
            opt_transform_json(self.transform),
        ));
        object_text(&members)
    }
}

/// The payload that signs download URLs for several objects at once.
pub struct CreateMultipleSignedUrlsPayload {
    /// How long the URLs stay valid, in seconds.
    pub expires_in: u64,
    pub paths: Vec<String>,
}

impl CreateMultipleSignedUrlsPayload {
    pub fn new(expires_in: u64, paths: &Vec<&str>) -> (r: CreateMultipleSignedUrlsPayload)
        ensures
            r.expires_in == expires_in,
            texts(r.paths@) == paths@.map_values(|p: &str| p@),
    {
        let mut owned: Vec<String> = Vec::new();
        let mut i: usize = 0;
        while i < paths.len()
            invariant
                i <= paths.len(),
                owned@.len() == i,
                forall|j: int| 0 <= j < i ==> owned@[j]@ == paths@[j]@,
            decreases paths.len() - i,
        {
            owned.push(paths[i].to_owned());
            i = i + 1;
        }
        assert(texts(owned@) =~= paths@.map_values(|p: &str| p@));
        CreateMultipleSignedUrlsPayload { expires_in, paths: owned }
    }

    pub open spec fn spec_json(&self) -> Seq<char> {
        multiple_signed_urls_json(self.expires_in, texts(self.paths@))
    }

    /// The payload as JSON text.
    pub fn to_json(&self) -> (r: String)
        ensures
            r@ == self.spec_json(),
    {
        let paths = string_array_text(&self.paths);
        let mut members: Vec<(String, String)> = Vec::new();
        push_member(&mut members, "expiresIn", decimal_string(self.expires_in));
        push_member(&mut members, "paths", paths);
        assert(member_texts(members@) =~= seq![
            ("expiresIn"@, decimal(self.expires_in as nat)),
            ("paths"@, json_string_array(texts(self.paths@))),
        ]);
        object_text(&members)
    }
}

/// The id of a new bucket: the one given, or else its name.
pub open spec fn id_or_name(id: Option<Seq<char>>, name: Seq<char>) -> Seq<char> {
    match id {
        Some(i) => i,
        None => name,
    }
}

/// The JSON text that creates a bucket called `name`, whose id is `id` or,
/// where none is given, `name`.
pub open spec fn create_bucket_json(
    name: Seq<char>,
    id: Option<Seq<char>>,
    public: bool,
    types: Option<Seq<Seq<char>>>,
    limit: Option<u64>,
) -> Seq<char> {
    json_object(
        seq![
            ("id"@, json_string_of(id_or_name(id, name))),
            ("name"@, json_string_of(name)),
            ("public"@, json_bool(public)),
            ("allowed_mime_types"@, json_opt_string_array(types)),
            ("file_size_limit"@, json_opt_number(limit)),
        ],
    )
}

/// The JSON text that changes the settings of bucket `id`.
pub open spec fn update_bucket_json(
    id: Seq<char>,
    public: bool,
    types: Option<Seq<Seq<char>>>,
    limit: Option<u64>,
) -> Seq<char> {
    json_object(
        seq![
            ("id"@, json_string_of(id)),
            ("public"@, json_bool(public)),
            ("allowed_mime_types"@, json_opt_string_array(types)),
            ("file_size_limit"@, json_opt_number(limit)),
        ],
    )
}

/// A creation payload made from these arguments has the JSON text
/// `create_bucket_json` gives for them.
pub proof fn lemma_create_bucket_json(
    p: CreateBucket,
    name: Seq<char>,
    id: Option<Seq<char>>,
    public: bool,
    types: Option<Seq<Seq<char>>>,
    limit: Option<u64>,
)
    requires
        p.id is Some,
        p.id->Some_0@ == id_or_name(id, name),
        p.name@ == name,
        p.public == public,
        opt_texts(p.allowed_mime_types) == types,
        p.file_size_limit == limit,
    ensures
        p.spec_json() == create_bucket_json(name, id, public, types, limit),
{
    assert(json_opt_string(p.id) == json_string_of(id_or_name(id, name)));
}

/// The JSON text that copies an object as `t` says, keeping its metadata
/// where `copy_metadata` is set.
pub open spec fn copy_json(t: Transfer, copy_metadata: bool) -> Seq<char> {
    json_object(
        seq![
            ("bucketId"@, json_string_of(t.0.0)),
            ("sourceKey"@, json_string_of(t.0.1)),
            ("destinationBucket"@, json_string_of(t.1.0)),
            ("destinationKey"@, json_string_of(t.1.1)),
            ("copyMetadata"@, json_bool(copy_metadata)),
        ],
    )
}

/// The JSON text that moves an object as `t` says.
pub open spec fn move_json(t: Transfer) -> Seq<char> {
    json_object(
        seq![
            ("bucketId"@, json_string_of(t.0.0)),
            ("sourceKey"@, json_string_of(t.0.1)),
            ("destinationBucket"@, json_string_of(t.1.0)),
            ("destinationKey"@, json_string_of(t.1.1)),
        ],
    )
}

/// The JSON text that signs a download URL valid for `expires_in` seconds:
/// `expiresIn` always, `transform` where rendering is asked for.
pub open spec fn signed_url_json(expires_in: u64, transform: Option<TransformOptions>) -> Seq<
    char,
> {
    json_object(
        push_present(
            seq![("expiresIn"@, decimal(expires_in as nat))],
            "transform"@,
            opt_transform_json(transform),
        ),
    )
}

/// The JSON text that signs download URLs for `paths`.
pub open spec fn multiple_signed_urls_json(expires_in: u64, paths: Seq<Seq<char>>) -> Seq<char> {
    json_object(
        seq![("expiresIn"@, decimal(expires_in as nat)), ("paths"@, json_string_array(paths))],
    )
}

/// Creating a bucket without an id asks for the same bucket as giving its
/// name as the id: the id defaults to the name.
pub proof fn lemma_default_id_is_name(
    name: Seq<char>,
    public: bool,
    types: Option<Seq<Seq<char>>>,
    limit: Option<u64>,
)
    ensures
        id_or_name(None, name) == name,
        create_bucket_json(name, None, public, types, limit) == create_bucket_json(
            name,
            Some(name),
            public,
            types,
            limit,
        ),
{
}

} // verus!
