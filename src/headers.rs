use vstd::prelude::*;

use crate::errors::ClientError;

verus! {

/// A header list as text: (name, value) pairs in the order they were set.
pub type HeaderSeq = Seq<(Seq<char>, Seq<char>)>;

/// A character that a header value may hold: a tab, or anything from the
/// space up but DEL (every byte of a character beyond ASCII is 128 or more).
pub open spec fn is_header_value_char(c: char) -> bool {
    c == '\t' || (c as u32 >= 32 && c as u32 != 127)
}

/// `s` may stand as a header value.
pub open spec fn valid_header_value(s: Seq<char>) -> bool {
    forall|i: int| 0 <= i < s.len() ==> is_header_value_char(s[i])
}

/// A character of an HTTP token, the characters a header name is made of.
pub open spec fn is_token_char(c: char) -> bool {
    ('a' <= c && c <= 'z') || ('A' <= c && c <= 'Z') || ('0' <= c && c <= '9') || c == '!'
        || c == '#' || c == '$' || c == '%' || c == '&' || c == '\'' || c == '*' || c == '+'
        || c == '-' || c == '.' || c == '^' || c == '_' || c == '`' || c == '|' || c == '~'
}

/// `s` may stand as a header name: one to 65535 token characters.
pub open spec fn valid_header_name(s: Seq<char>) -> bool {
    1 <= s.len() <= 65535 && forall|i: int| 0 <= i < s.len() ==> is_token_char(s[i])
}

/// `c` with an ASCII capital letter made small.
pub open spec fn ascii_lower(c: char) -> char {
    if 'A' <= c && c <= 'Z' {
        ((c as u32) + 32) as char
    } else {
        c
    }
}

/// The canonical (lower-case) form of a header name.
pub open spec fn canonical_name(s: Seq<char>) -> Seq<char> {
    s.map_values(|c: char| ascii_lower(c))
}

/// The value set last under `name`, if any.
pub open spec fn lookup(hs: HeaderSeq, name: Seq<char>) -> Option<Seq<char>>
    decreases hs.len(),
{
    if hs.len() == 0 {
        None
    } else if hs.last().0 == name {
        Some(hs.last().1)
    } else {
        lookup(hs.drop_last(), name)
    }
}

/// Sets `name` to `value` where both the list and the value are valid.
pub open spec fn put_header(hs: Option<HeaderSeq>, name: Seq<char>, value: Seq<char>) -> Option<
    HeaderSeq,
> {
    match hs {
        Some(h) => if valid_header_value(value) {
            Some(h.push((name, value)))
        } else {
            None
        },
        None => None,
    }
}

/// Sets `name` to `value` unless `name` is set already.
pub open spec fn put_header_if_absent(
    hs: Option<HeaderSeq>,
    name: Seq<char>,
    value: Seq<char>,
) -> Option<HeaderSeq> {
    match hs {
        Some(h) => if lookup(h, name) is Some {
            Some(h)
        } else {
            put_header(Some(h), name, value)
        },
        None => None,
    }
}

/// Relies on HeaderValue::from_str (http, through reqwest), which accepts a
/// string exactly when each of its bytes is a tab, or 32 and up but 127.
#[verifier::external_body]
fn check_header_value(s: &str) -> (r: Result<(), reqwest::header::InvalidHeaderValue>)
    ensures
        r is Ok <==> valid_header_value(s@),
{
    match reqwest::header::HeaderValue::from_str(s) {
        Ok(_) => Ok(()),
        Err(e) => Err(e),
    }
}

/// Relies on HeaderName::from_bytes (http, through reqwest), which accepts one
/// to 65535 token bytes and gives the name with ASCII letters made small.
#[verifier::external_body]
fn parse_header_name(s: &str) -> (r: Result<String, reqwest::header::InvalidHeaderName>)
    ensures
        r is Ok <==> valid_header_name(s@),
        r is Ok ==> r->Ok_0@ == canonical_name(s@),
{
    match reqwest::header::HeaderName::from_bytes(s.as_bytes()) {
        Ok(n) => Ok(n.as_str().to_string()),
        Err(e) => Err(e),
    }
}

/// The canonical form of a header name, or the error for an invalid one.
pub fn header_name(s: &str) -> (r: Result<String, ClientError>)
    ensures
        r is Ok <==> valid_header_name(s@),
        r is Ok ==> r->Ok_0@ == canonical_name(s@),
        r is Err ==> r->Err_0 is InvalidHeaderName,
{
    match parse_header_name(s) {
        Ok(n) => Ok(n),
        Err(e) => Err(ClientError::InvalidHeaderName(e)),
    }
}

/// An ordered list of request headers. A name may occur more than once; the
/// entry set last is the one that counts.
pub struct Headers {
    pub entries: Vec<(String, String)>,
}

impl View for Headers {
    type V = HeaderSeq;

    open spec fn view(&self) -> HeaderSeq {
        self.entries@.map_values(|e: (String, String)| (e.0@, e.1@))
    }
}

impl Headers {
    pub fn new() -> (r: Headers)
        ensures
            r@ == Seq::<(Seq<char>, Seq<char>)>::empty(),
    {
        let r = Headers { entries: Vec::new() };
        assert(r@ =~= Seq::<(Seq<char>, Seq<char>)>::empty());
        r
    }

    /// A copy of this list.
    pub fn duplicate(&self) -> (r: Headers)
        ensures
            r@ == self@,
    {
        let mut entries: Vec<(String, String)> = Vec::new();
        let mut i: usize = 0;
        while i < self.entries.len()
            invariant
                i <= self.entries.len(),
                entries@.len() == i,
                forall|j: int|
                    0 <= j < i ==> entries@[j].0@ == self.entries@[j].0@ && entries@[j].1@
                        == self.entries@[j].1@,
            decreases self.entries.len() - i,
        {
            let (n, v) = (self.entries[i].0.clone(), self.entries[i].1.clone());
            entries.push((n, v));
            i = i + 1;
        }
        let r = Headers { entries };
        assert(r@ =~= self@);
        r
    }

    /// Whether `name` is set.
    pub fn contains(&self, name: &str) -> (r: bool)
        ensures
            r == (lookup(self@, name@) is Some),
    {
        let wanted: String = name.to_owned();
        let mut found = false;
        let mut i: usize = 0;
        while i < self.entries.len()
            invariant
                i <= self.entries.len(),
                wanted@ == name@,
                found == (lookup(self@.take(i as int), name@) is Some),
            decreases self.entries.len() - i,
        {
            assert(self@.take(i as int + 1).drop_last() =~= self@.take(i as int));
            assert(self@.take(i as int + 1).last() == self@[i as int]);
            let same = self.entries[i].0 == wanted;
            if same {
                found = true;
            }
            assert(self@[i as int].0 == self.entries@[i as int].0@);
            assert(same == (self@[i as int].0 == name@));
            i = i + 1;
        }
        assert(self@.take(self.entries.len() as int) =~= self@);
        found
    }

    /// Sets `name` to `value`; fails, changing nothing, where `value` cannot
    /// stand in a header. `name` is taken as given.
    pub fn insert(&mut self, name: &str, value: &str) -> (r: Result<(), ClientError>)
        ensures
            r is Ok <==> valid_header_value(value@),
            r is Ok ==> final(self)@ == old(self)@.push((name@, value@)),
            r is Err ==> final(self)@ == old(self)@ && r->Err_0 is InvalidHeaderValue,
    {
        match check_header_value(value) {
            Ok(()) => {
                let ghost before = self@;
                self.entries.push((name.to_string(), value.to_string()));
                assert(self@ =~= before.push((name@, value@)));
                Ok(())
            },
            Err(e) => Err(ClientError::InvalidHeaderValue(e)),
        }
    }

    /// Sets `name` to `value` unless `name` is set already.
    pub fn insert_if_absent(&mut self, name: &str, value: &str) -> (r: Result<(), ClientError>)
        ensures
            put_header_if_absent(Some(old(self)@), name@, value@) == (if r is Ok {
                Some(final(self)@)
            } else {
                None::<HeaderSeq>
            }),
            r is Err ==> final(self)@ == old(self)@ && r->Err_0 is InvalidHeaderValue,
    {
        if self.contains(name) {
            Ok(())
        } else {
            self.insert(name, value)
        }
    }
}

} // verus!
