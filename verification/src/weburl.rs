//! Absolute URLs, held as the serialization that the `url` crate gives them.
use vstd::prelude::*;

verus! {

/// The serialization of the URL that `url::Url::parse` reads from a text, `None` where it
/// rejects the text.
pub uninterp spec fn url_parse(input: Seq<char>) -> Option<Seq<char>>;

/// The serialization of `url::Url::join(base, input)` for the URL whose serialization is
/// `base`, `None` where the join is rejected.
pub uninterp spec fn url_join(base: Seq<char>, input: Seq<char>) -> Option<Seq<char>>;

/// The serialization after `query_pairs_mut().append_pair(name, value)` on the URL whose
/// serialization is `url`.
pub uninterp spec fn url_append_pair(url: Seq<char>, name: Seq<char>, value: Seq<char>) -> Seq<char>;

/// `url::Url::cannot_be_a_base` of the URL whose serialization is `url`.
pub uninterp spec fn url_cannot_be_a_base(url: Seq<char>) -> bool;

/// The query pair `name=value` can be appended to the URL serialized as `url` while every
/// position that the `url` crate keeps fits its `u32` and the string stays within what
/// can be allocated. A serialization is ASCII; the pair adds one separator, `=`, and
/// each character of the name and the value takes at most four bytes of UTF-8, each
/// written as three when percent-encoded.
pub open spec fn query_pair_fits(url: Seq<char>, name: Seq<char>, value: Seq<char>) -> bool {
    &&& url.len() + 3 * 4 * (name.len() + value.len()) + 2 <= u32::MAX
    &&& url.len() + 3 * 4 * (name.len() + value.len()) + 2 <= isize::MAX
}

/// A text is a URL serialization when parsing it gives it back unchanged.
pub open spec fn is_serialization(text: Seq<char>) -> bool {
    url_parse(text) == Some(text)
}

/// Calls `url::Url::parse` and keeps the serialization of the result.
/// Claims: the outcome is the named parse of the text, and a serialization parses back to
/// itself (the invariant that `Url::check_invariants` asserts of every URL).
#[verifier::external_body]
fn parse_to_serialization(input: &str) -> (r: Option<String>)
    ensures
        match r {
            Some(s) => url_parse(input@) == Some(s@) && is_serialization(s@),
            None => url_parse(input@) is None,
        },
{
    match url::Url::parse(input) {
        Ok(u) => Some(u.into()),
        Err(_) => None,
    }
}

/// Calls `url::Url::join` on the URL that `base` serializes (re-read with
/// `url::Url::parse`). Claims: the outcome is the named join, and the joined URL's
/// serialization parses back to itself.
#[verifier::external_body]
fn join_serialization(base: &str, input: &str) -> (r: Option<String>)
    requires
        is_serialization(base@),
    ensures
        match r {
            Some(s) => url_join(base@, input@) == Some(s@) && is_serialization(s@),
            None => url_join(base@, input@) is None,
        },
{
    match url::Url::parse(base) {
        Ok(b) => match b.join(input) {
            Ok(u) => Some(u.into()),
            Err(_) => None,
        },
        Err(_) => None,
    }
}

/// Calls `query_pairs_mut().append_pair(name, value)` on the URL that `url` serializes.
/// Claims: the result is the named serialization, and it parses back to itself.
/// The length bound keeps every position inside the `u32` that the crate stores
/// (`to_u32(..).unwrap()` in `query_pairs_mut` and when the fragment is put back), and
/// the string's length within `isize::MAX`.
#[verifier::external_body]
fn append_pair_serialization(url: &str, name: &str, value: &str) -> (r: String)
    requires
        is_serialization(url@),
        query_pair_fits(url@, name@, value@),
    ensures
        r@ == url_append_pair(url@, name@, value@),
        is_serialization(r@),
{
    let mut u = url::Url::parse(url).unwrap();
    u.query_pairs_mut().append_pair(name, value);
    u.into()
}

/// Calls `url::Url::cannot_be_a_base` on the URL that `url` serializes.
/// Claims only that the answer is the named one.
#[verifier::external_body]
fn serialization_cannot_be_a_base(url: &str) -> (r: bool)
    requires
        is_serialization(url@),
    ensures
        r == url_cannot_be_a_base(url@),
{
    url::Url::parse(url).unwrap().cannot_be_a_base()
}

/// An absolute URL. Its view is its serialization; two URLs are equal when their
/// serializations are.
#[derive(Debug, PartialEq, Eq)]
pub struct WebUrl {
    text: String,
}

impl View for WebUrl {
    type V = Seq<char>;

    closed spec fn view(&self) -> Seq<char> {
        self.text@
    }
}

impl Clone for WebUrl {
    fn clone(&self) -> (r: WebUrl)
        ensures
            r@ == self@,
    {
        self.duplicate()
    }
}

impl WebUrl {
    #[verifier::type_invariant]
    spec fn well_formed(self) -> bool {
        is_serialization(self.text@)
    }

    /// Parses an absolute URL (`str::parse::<Url>`).
    pub fn parse(input: &str) -> (r: Option<WebUrl>)
        ensures
            match r {
                Some(u) => url_parse(input@) == Some(u@),
                None => url_parse(input@) is None,
            },
    {
        match parse_to_serialization(input) {
            Some(text) => Some(WebUrl { text }),
            None => None,
        }
    }

    /// The serialization; it parses back to this URL.
    pub fn as_str(&self) -> (s: &str)
        ensures
            s@ == self@,
            is_serialization(s@),
    {
        proof {
            use_type_invariant(self);
        }
        self.text.as_str()
    }

    /// The serialization as an owned string (what `Display` writes); it parses back to
    /// this URL.
    pub fn to_string(&self) -> (s: String)
        ensures
            s@ == self@,
            is_serialization(s@),
    {
        proof {
            use_type_invariant(self);
        }
        self.text.clone()
    }

    /// The same URL again.
    pub fn duplicate(&self) -> (r: WebUrl)
        ensures
            r@ == self@,
    {
        proof {
            use_type_invariant(self);
        }
        WebUrl { text: self.text.clone() }
    }

    /// `Url::join`: resolves `input` against this URL.
    pub fn join(&self, input: &str) -> (r: Option<WebUrl>)
        ensures
            match r {
                Some(u) => url_join(self@, input@) == Some(u@),
                None => url_join(self@, input@) is None,
            },
    {
        proof {
            use_type_invariant(self);
        }
        match join_serialization(self.text.as_str(), input) {
            Some(text) => Some(WebUrl { text }),
            None => None,
        }
    }

    /// This URL with the query pair `name=value` appended
    /// (`query_pairs_mut().append_pair(name, value)`).
    pub fn with_query_pair(&self, name: &str, value: &str) -> (r: WebUrl)
        requires
            query_pair_fits(self@, name@, value@),
        ensures
            r@ == url_append_pair(self@, name@, value@),
    {
        proof {
            use_type_invariant(self);
        }
        let text = append_pair_serialization(self.text.as_str(), name, value);
        WebUrl { text }
    }

    /// `Url::cannot_be_a_base`.
    pub fn cannot_be_a_base(&self) -> (r: bool)
        ensures
            r == url_cannot_be_a_base(self@),
    {
        proof {
            use_type_invariant(self);
        }
        serialization_cannot_be_a_base(self.text.as_str())
    }
}

} // verus!
