use vstd::prelude::*;

use crate::client::{StorageClient, STORAGE_V1};
use crate::errors::ClientError;
use crate::headers::HeaderSeq;
use crate::json::member_texts;
use crate::models::DownloadOptions;
use crate::payloads::{opt_view, push_present};
use crate::text::{decimal, decimal_string};

verus! {

/// The longest text (in characters, base URL and query pairs together) that
/// a URL is built from: a URL serializes to fewer than 4 GiB, and each
/// character takes at most twelve bytes once form-encoded.
pub const MAX_URL_TEXT: usize = 0x1000_0000;

/// The number of characters of query pairs, with a separator for each name
/// and value.
pub open spec fn query_size(pairs: HeaderSeq) -> nat
    decreases pairs.len(),
{
    if pairs.len() == 0 {
        0
    } else {
        query_size(pairs.drop_last()) + pairs.last().0.len() + pairs.last().1.len() + 2
    }
}

/// What url::Url makes of `base` with `pairs` appended to its query: the
/// serialized URL, or nothing where `base` does not parse.
pub uninterp spec fn url_with_query_of(base: Seq<char>, pairs: HeaderSeq) -> Option<Seq<char>>;

/// Relies on url::Url (through reqwest): `Url::parse`, then `append_pair`
/// for each pair in order on `query_pairs_mut`, then the serialization. The
/// result depends on the text of `base` and the pairs alone. A URL past
/// 4 GiB would panic, which the bound on the input keeps out.
#[verifier::external_body]
fn url_with_query(base: &str, pairs: &Vec<(String, String)>) -> (r: Option<String>)
    requires
        base@.len() + query_size(member_texts(pairs@)) <= MAX_URL_TEXT,
    ensures
        (r is Some) == (url_with_query_of(base@, member_texts(pairs@)) is Some),
        r is Some ==> r->Some_0@ == url_with_query_of(base@, member_texts(pairs@))->Some_0,
{
    let mut url = match reqwest::Url::parse(base) {
        Ok(u) => u,
        Err(_) => return None,
    };
    {
        let mut query = url.query_pairs_mut();
        for (name, value) in pairs.iter() {
            query.append_pair(name, value);
        }
    }
    Some(url.to_string())
}

/// A resize mode that the rendering service knows.
pub open spec fn resize_allowed(r: Seq<char>) -> bool {
    r == "cover"@ || r == "contain"@ || r == "fill"@
}

/// An optional number as text.
pub open spec fn opt_decimal(n: Option<u64>) -> Option<Seq<char>> {
    match n {
        Some(v) => Some(decimal(v as nat)),
        None => None,
    }
}

/// An optional byte-sized number as text.
pub open spec fn opt_decimal_u8(n: Option<u8>) -> Option<Seq<char>> {
    match n {
        Some(v) => Some(decimal(v as nat)),
        None => None,
    }
}

/// The query pairs for download options, in order: `height`, `width`,
/// `format`, `quality` where set, `resize` where set to a known mode, and
/// `download=true` where a download is asked for.
pub open spec fn query_pairs(o: DownloadOptions) -> HeaderSeq {
    let rendered = match o.transform {
        Some(t) => {
            let a = push_present(Seq::empty(), "height"@, opt_decimal(t.height));
            let b = push_present(a, "width"@, opt_decimal(t.width));
            let c = push_present(b, "format"@, opt_view(t.format));
            let d = push_present(c, "quality"@, opt_decimal_u8(t.quality));
            match t.resize {
                Some(r) => if resize_allowed(r@) {
                    d.push(("resize"@, r@))
                } else {
                    d
                },
                None => d,
            }
        },
        None => Seq::empty(),
    };
    if o.download == Some(true) {
        rendered.push(("download"@, "true"@))
    } else {
        rendered
    }
}

/// The path segment of a public URL: image rendering where a transform is
/// asked for, the plain object otherwise.
pub open spec fn public_segment(o: Option<DownloadOptions>) -> Seq<char> {
    match o {
        Some(d) => if d.transform is Some {
            "render/image"@
        } else {
            "object"@
        },
        None => "object"@,
    }
}

/// Whether `r` is a resize mode that the rendering service knows.
pub fn is_known_resize(r: &str) -> (b: bool)
    ensures
        b == resize_allowed(r@),
{
    let given: String = r.to_owned();
    given == "cover".to_owned() || given == "contain".to_owned() || given == "fill".to_owned()
}

fn push_pair(pairs: &mut Vec<(String, String)>, name: &str, value: String)
    ensures
        member_texts(final(pairs)@) == member_texts(old(pairs)@).push((name@, value@)),
{
    let ghost before = member_texts(pairs@);
    pairs.push((name.to_owned(), value));
    assert(member_texts(pairs@) =~= before.push((name@, value@)));
}

/// The query pairs that download options ask for.
pub fn query_pairs_of(options: &DownloadOptions) -> (r: Vec<(String, String)>)
    ensures
        member_texts(r@) == query_pairs(*options),
{
    let mut pairs: Vec<(String, String)> = Vec::new();
    assert(member_texts(pairs@) =~= Seq::<(Seq<char>, Seq<char>)>::empty());
    if let Some(t) = &options.transform {
        if let Some(h) = t.height {
            push_pair(&mut pairs, "height", decimal_string(h));
        }
        if let Some(w) = t.width {
            push_pair(&mut pairs, "width", decimal_string(w));
        }
        if let Some(f) = t.format {
            push_pair(&mut pairs, "format", f.to_owned());
        }
        if let Some(q) = t.quality {
            push_pair(&mut pairs, "quality", decimal_string(q as u64));
        }
        if let Some(r) = t.resize {
            if is_known_resize(r) {
                push_pair(&mut pairs, "resize", r.to_owned());
            }
        }
    }
    if options.download == Some(true) {
        push_pair(&mut pairs, "download", "true".to_owned());
    }
    pairs
}

/// `url_str` with the query pairs of `options` appended; an error where
/// `url_str` is not a URL.
pub fn build_url_with_options(url_str: &str, options: &DownloadOptions) -> (r: Result<
    String,
    ClientError,
>)
    requires
        url_str@.len() + query_size(query_pairs(*options)) <= MAX_URL_TEXT,
    ensures
        match url_with_query_of(url_str@, query_pairs(*options)) {
            Some(u) => r is Ok && r->Ok_0@ == u,
            None => r is Err && is_unparsable_url(r->Err_0),
        },
{
    let pairs = query_pairs_of(options);
    match url_with_query(url_str, &pairs) {
        Some(u) => Ok(u),
        None => Err(ClientError::UrlParseError { message: "Failed to parse Url".to_owned() }),
    }
}

impl StorageClient {
    /// The public URL of an object, before any query.
    pub open spec fn public_base(
        &self,
        bucket_id: Seq<char>,
        path: Seq<char>,
        options: Option<DownloadOptions>,
    ) -> Seq<char> {
        self.project_url@ + STORAGE_V1@ + "/"@ + public_segment(options) + "/public/"@ + bucket_id
            + "/"@ + path
    }

    /// The URL at which anyone can read an object of a public bucket, with
    /// the query that the options ask for. Nothing is sent.
    pub fn get_public_url(&self, bucket_id: &str, path: &str, options: Option<DownloadOptions>) -> (r:
        Result<String, ClientError>)
        requires
            options is Some ==> self.public_base(bucket_id@, path@, options).len() + query_size(
                query_pairs(options->Some_0),
            ) <= MAX_URL_TEXT,
        ensures
            match options {
                None => r is Ok && r->Ok_0@ == self.public_base(bucket_id@, path@, options),
                Some(o) => match url_with_query_of(
                    self.public_base(bucket_id@, path@, options),
                    query_pairs(o),
                ) {
                    Some(u) => r is Ok && r->Ok_0@ == u,
                    None => r is Err && is_unparsable_url(r->Err_0),
                },
            },
    {
        let segment = match &options {
            Some(o) => if o.transform.is_some() {
                "render/image"
            } else {
                "object"
            },
            None => "object",
        };
        let mut url = self.project_url.clone();
        url.append(STORAGE_V1);
        url.append("/");
        url.append(segment);
        url.append("/public/");
        url.append(bucket_id);
        url.append("/");
        url.append(path);
        assert(url@ =~= self.public_base(bucket_id@, path@, options));
        match options {
            Some(o) => build_url_with_options(url.as_str(), &o),
            None => Ok(url),
        }
    }
}

/// `e` is the missing-token error with its message.
pub open spec fn is_missing_token(e: ClientError) -> bool {
    match e {
        ClientError::InvalidToken { message } => message@ == "No token found in URL"@,
        _ => false,
    }
}

/// `e` is the URL error with its message.
pub open spec fn is_unparsable_url(e: ClientError) -> bool {
    match e {
        ClientError::UrlParseError { message } => message@ == "Failed to parse Url"@,
        _ => false,
    }
}

/// The first position at or after `from` where `s` holds `c`, or the length
/// of `s` where there is none.
pub open spec fn find_from(s: Seq<char>, c: char, from: int) -> int
    recommends
        0 <= from,
    decreases s.len() - from,
{
    if from >= s.len() {
        s.len() as int
    } else if s[from] == c {
        from
    } else {
        find_from(s, c, from + 1)
    }
}

/// The text between `start` and `stop` begins with `token=`.
pub open spec fn starts_with_token(s: Seq<char>, start: int, stop: int) -> bool {
    stop - start >= 6 && s.subrange(start, start + 6) == seq!['t', 'o', 'k', 'e', 'n', '=']
}

/// Among the `&`-separated parameters of `s` between `start` and `end`, the
/// bounds of the value of the first one named `token`.
pub open spec fn token_bounds(s: Seq<char>, start: int, end: int) -> Option<(int, int)>
    recommends
        0 <= start <= end <= s.len(),
    decreases end - start,
{
    let amp = find_from(s, '&', start);
    let stop = if amp < end {
        amp
    } else {
        end
    };
    if starts_with_token(s, start, stop) {
        Some((start + 6, stop))
    } else if stop >= end || stop < start {
        None
    } else {
        token_bounds(s, stop + 1, end)
    }
}

/// The value of the first `token` parameter of the query of `url`: the text
/// after its first `?`, up to the next `?`.
pub open spec fn token_of(url: Seq<char>) -> Option<Seq<char>> {
    let q = find_from(url, '?', 0);
    if q >= url.len() {
        None
    } else {
        match token_bounds(url, q + 1, find_from(url, '?', q + 1)) {
            Some(b) => Some(url.subrange(b.0, b.1)),
            None => None,
        }
    }
}

proof fn lemma_find_from_bounds(s: Seq<char>, c: char, from: int)
    requires
        0 <= from <= s.len(),
    ensures
        from <= find_from(s, c, from) <= s.len(),
        find_from(s, c, from) < s.len() ==> s[find_from(s, c, from)] == c,
    decreases s.len() - from,
{
    if from < s.len() && s[from] != c {
        lemma_find_from_bounds(s, c, from + 1);
    }
}

fn find_char(s: &str, n: usize, c: char, from: usize) -> (r: usize)
    requires
        n == s@.len(),
        from <= n,
    ensures
        r as int == find_from(s@, c, from as int),
{
    let mut i = from;
    while i < n && s.get_char(i) != c
        invariant
            n == s@.len(),
            from <= i <= n,
            find_from(s@, c, from as int) == find_from(s@, c, i as int),
        decreases n - i,
    {
        i = i + 1;
    }
    i
}

fn starts_with_token_at(s: &str, n: usize, start: usize, stop: usize) -> (b: bool)
    requires
        n == s@.len(),
        start <= stop <= n,
    ensures
        b == starts_with_token(s@, start as int, stop as int),
{
    if stop - start < 6 {
        return false;
    }
    let b = s.get_char(start) == 't' && s.get_char(start + 1) == 'o' && s.get_char(start + 2)
        == 'k' && s.get_char(start + 3) == 'e' && s.get_char(start + 4) == 'n' && s.get_char(
        start + 5,
    ) == '=';
    assert(b == (s@.subrange(start as int, start + 6) =~= seq!['t', 'o', 'k', 'e', 'n', '=']));
    b
}

/// The value of the first `token` parameter of the query of a signed URL
/// (the text after its first `?`, up to the next `?`).
pub fn extract_token(url: &str) -> (r: Result<&str, ClientError>)
    ensures
        match token_of(url@) {
            Some(t) => r is Ok && r->Ok_0@ == t,
            None => r is Err && is_missing_token(r->Err_0),
        },
{
    let n = url.unicode_len();
    let q = find_char(url, n, '?', 0);
    if q >= n {
        return Err(ClientError::InvalidToken { message: "No token found in URL".to_owned() });
    }
    let end = find_char(url, n, '?', q + 1);
    proof {
        lemma_find_from_bounds(url@, '?', q + 1);
    }
    let mut start = q + 1;
    loop
        invariant
            n == url@.len(),
            q + 1 <= start <= end,
            q < n,
            end <= n,
            end as int == find_from(url@, '?', q + 1),
            token_bounds(url@, q + 1, end as int) == token_bounds(url@, start as int, end as int),
            token_of(url@) == (match token_bounds(url@, q + 1, end as int) {
                Some(b) => Some(url@.subrange(b.0, b.1)),
                None => None::<Seq<char>>,
            }),
        decreases end - start,
    {
        let amp = find_char(url, n, '&', start);
        proof {
            lemma_find_from_bounds(url@, '&', start as int);
        }
        let stop = if amp < end {
            amp
        } else {
            end
        };
        if starts_with_token_at(url, n, start, stop) {
            return Ok(url.substring_char(start + 6, stop));
        }
        if stop >= end {
            return Err(ClientError::InvalidToken { message: "No token found in URL".to_owned() });
        }
        start = stop + 1;
    }
}

/// A public URL goes through image rendering exactly when a transform is
/// asked for, and a resize mode that the service does not know is left out
/// of its query.
pub proof fn lemma_public_url_shape(o: DownloadOptions)
    ensures
        o.transform is Some ==> public_segment(Some(o)) == "render/image"@,
        o.transform is None ==> public_segment(Some(o)) == "object"@,
        public_segment(None) == "object"@,
        (o.transform is Some && o.transform->Some_0.resize is Some && !resize_allowed(
            o.transform->Some_0.resize->Some_0@,
        )) ==> forall|i: int|
            0 <= i < query_pairs(o).len() ==> query_pairs(o)[i].0 != "resize"@,
{
    reveal_strlit("resize");
    reveal_strlit("height");
    reveal_strlit("width");
    reveal_strlit("format");
    reveal_strlit("quality");
    reveal_strlit("download");
    assert("height"@[0] != "resize"@[0]);
    assert("width"@ != "resize"@);
    assert("format"@[0] != "resize"@[0]);
    assert("quality"@ != "resize"@);
    assert("download"@ != "resize"@);
    if o.transform is Some {
        let t = o.transform->Some_0;
        if t.resize is Some && !resize_allowed(t.resize->Some_0@) {
            let e = Seq::<(Seq<char>, Seq<char>)>::empty();
            let a = push_present(e, "height"@, opt_decimal(t.height));
            let b = push_present(a, "width"@, opt_decimal(t.width));
            let c = push_present(b, "format"@, opt_view(t.format));
            let d = push_present(c, "quality"@, opt_decimal_u8(t.quality));
            lemma_push_present_keeps_out(e, "height"@, opt_decimal(t.height), "resize"@);
            lemma_push_present_keeps_out(a, "width"@, opt_decimal(t.width), "resize"@);
            lemma_push_present_keeps_out(b, "format"@, opt_view(t.format), "resize"@);
            lemma_push_present_keeps_out(c, "quality"@, opt_decimal_u8(t.quality), "resize"@);
            lemma_push_present_keeps_out(
                d,
                "download"@,
                if o.download == Some(true) {
                    Some("true"@)
                } else {
                    None
                },
                "resize"@,
            );
        }
    }
}

proof fn lemma_push_present_keeps_out(
    ms: HeaderSeq,
    key: Seq<char>,
    value: Option<Seq<char>>,
    name: Seq<char>,
)
    requires
        key != name,
        forall|i: int| 0 <= i < ms.len() ==> ms[i].0 != name,
    ensures
        forall|i: int|
            0 <= i < push_present(ms, key, value).len() ==> push_present(ms, key, value)[i].0
                != name,
{
}

} // verus!
