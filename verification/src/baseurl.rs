//! URLs that other URLs can be resolved against.
use vstd::prelude::*;
use crate::weburl::{WebUrl, url_join, url_parse, url_cannot_be_a_base};

verus! {

/// Why a URL was not accepted as a base URL.
#[derive(Debug, Clone, Copy, PartialEq, Eq)]
pub enum BaseUrlError {
    /// The URL cannot be a base (such as `data:` or `mailto:` URLs).
    PredicateViolated,
}

/// Why a text was not accepted as a base URL.
#[derive(Debug, Clone, Copy, PartialEq, Eq)]
pub enum BaseUrlParseError {
    /// The text is not an absolute URL.
    Parse,
    /// The text is a URL that cannot be a base.
    Validate(BaseUrlError),
}

/// A URL that can be a base: `url::Url::cannot_be_a_base` is false for it.
#[derive(Debug, PartialEq, Eq)]
pub struct BaseUrl {
    url: WebUrl,
}

impl View for BaseUrl {
    type V = Seq<char>;

    closed spec fn view(&self) -> Seq<char> {
        self.url@
    }
}

impl Clone for BaseUrl {
    fn clone(&self) -> (r: BaseUrl)
        ensures
            r@ == self@,
    {
        self.duplicate()
    }
}

impl BaseUrl {
    #[verifier::type_invariant]
    spec fn well_formed(self) -> bool {
        !url_cannot_be_a_base(self.url@)
    }

    /// Accepts a URL exactly when it can be a base.
    pub fn try_new(url: WebUrl) -> (r: Result<BaseUrl, BaseUrlError>)
        ensures
            match r {
                Ok(b) => !url_cannot_be_a_base(url@) && b@ == url@,
                Err(e) => url_cannot_be_a_base(url@) && e == BaseUrlError::PredicateViolated,
            },
    {
        if url.cannot_be_a_base() {
            Err(BaseUrlError::PredicateViolated)
        } else {
            Ok(BaseUrl { url })
        }
    }

    /// Parses a text as a URL and accepts it when it can be a base (`str::parse`).
    pub fn parse(input: &str) -> (r: Result<BaseUrl, BaseUrlParseError>)
        ensures
            match url_parse(input@) {
                None => r == Err::<BaseUrl, BaseUrlParseError>(BaseUrlParseError::Parse),
                Some(t) => if url_cannot_be_a_base(t) {
                    r == Err::<BaseUrl, BaseUrlParseError>(
                        BaseUrlParseError::Validate(BaseUrlError::PredicateViolated),
                    )
                } else {
                    r matches Ok(b) && b@ == t
                },
            },
    {
        match WebUrl::parse(input) {
            None => Err(BaseUrlParseError::Parse),
            Some(url) => match BaseUrl::try_new(url) {
                Ok(b) => Ok(b),
                Err(e) => Err(BaseUrlParseError::Validate(e)),
            },
        }
    }

    /// The URL itself; it can be a base.
    pub fn as_ref(&self) -> (r: &WebUrl)
        ensures
            r@ == self@,
            !url_cannot_be_a_base(r@),
    {
        proof {
            use_type_invariant(self);
        }
        &self.url
    }

    /// The serialization (what `Display` writes).
    pub fn to_string(&self) -> (s: String)
        ensures
            s@ == self@,
    {
        self.url.to_string()
    }

    /// The same base URL again.
    pub fn duplicate(&self) -> (r: BaseUrl)
        ensures
            r@ == self@,
    {
        proof {
            use_type_invariant(self);
        }
        BaseUrl { url: self.url.duplicate() }
    }

    /// Resolves `input` against this URL. The join must succeed: an unresolvable
    /// input is a programming error here.
    pub fn join(&self, input: &str) -> (r: WebUrl)
        requires
            url_join(self@, input@) is Some,
        ensures
            url_join(self@, input@) == Some(r@),
    {
        match self.url.join(input) {
            Some(u) => u,
            None => {
                assert(false);
                self.url.duplicate()
            },
        }
    }

    /// Resolves `input` against this URL, or says that it cannot be resolved.
    pub fn try_join(&self, input: &str) -> (r: Option<WebUrl>)
        ensures
            match r {
                Some(u) => url_join(self@, input@) == Some(u@),
                None => url_join(self@, input@) is None,
            },
    {
        self.url.join(input)
    }
}

} // verus!
