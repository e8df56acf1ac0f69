//! The request's destination: an absolute URL with a scheme and a host.
//!
//! Parsing itself is done by the `url` crate's parser, as `reqwest`
//! exports it. What this module decides is which parse results are fit for
//! a request, and what is reported for the others.

use vstd::prelude::*;
use crate::error::RequestError;

verus! {

/// What the parser reports of a string that it accepts.
#[derive(Debug, PartialEq, Eq)]
pub struct UrlParts {
    /// The URL in its normalised, rendered form.
    pub rendered: String,
    /// The scheme, without the colon.
    pub scheme: String,
    /// The host, where the URL has one.
    pub host: Option<String>,
}

/// The contents of a `UrlParts`, as sequences of characters.
pub struct UrlPartsView {
    pub rendered: Seq<char>,
    pub scheme: Seq<char>,
    pub host: Option<Seq<char>>,
}

impl View for UrlParts {
    type V = UrlPartsView;

    open spec fn view(&self) -> UrlPartsView {
        UrlPartsView {
            rendered: self.rendered@,
            scheme: self.scheme@,
            host: match self.host {
                Some(h) => Some(h@),
                None => None,
            },
        }
    }
}

/// What `Url::parse` of the `url` crate returns for a text: the parts of
/// the URL it accepted, or the message of the error it refused the text
/// with.
pub uninterp spec fn url_parse(text: Seq<char>) -> Result<UrlPartsView, Seq<char>>;

/// The outcome of a parse, by its contents.
pub open spec fn parse_outcome(r: Result<UrlParts, String>) -> Result<UrlPartsView, Seq<char>> {
    match r {
        Ok(parts) => Ok(parts@),
        Err(cause) => Err(cause@),
    }
}

/// Whether `part` occurs in `whole` as a run of consecutive characters.
pub open spec fn occurs_in(part: Seq<char>, whole: Seq<char>) -> bool {
    exists|from: int, to: int|
        0 <= from <= to <= whole.len() && #[trigger] whole.subrange(from, to) == part
}

/// Whether the rendered form of an accepted URL keeps its scheme and its
/// host: it starts with the scheme, and the host, where there is one,
/// occurs in it.
pub open spec fn rendering_is_faithful(parsed: Result<UrlPartsView, Seq<char>>) -> bool {
    parsed matches Ok(parts) ==> parts.scheme.is_prefix_of(parts.rendered) && (
    parts.host matches Some(h) ==> occurs_in(h, parts.rendered))
}

/// Calls `reqwest::Url::parse` (the `url` crate's parser) on `text`.
///
/// Trusted: the parser's answer depends on the text alone, so it is the
/// named result `url_parse` of that text. On success the parts are the
/// accepted URL's `as_str`, `scheme` and `host_str`; on failure the cause
/// is the parse error's message. The one thing claimed of the parts is
/// what the accessors show: `scheme` is the rendered string up to the end
/// of the scheme, and `host_str` is a slice of the rendered string.
#[verifier::external_body]
fn parse_url(text: &str) -> (r: Result<UrlParts, String>)
    ensures
        parse_outcome(r) == url_parse(text@),
        rendering_is_faithful(parse_outcome(r)),
{
    match reqwest::Url::parse(text) {
        Ok(url) => Ok(UrlParts {
            rendered: url.as_str().to_string(),
            scheme: url.scheme().to_string(),
            host: url.host_str().map(str::to_string),
        }),
        Err(error) => Err(error.to_string()),
    }
}

/// A validated absolute URL: it has a scheme and a host.
#[derive(Debug, PartialEq, Eq)]
pub struct Url {
    rendered: String,
    scheme: String,
    host: String,
}

/// The contents of a `Url`, as sequences of characters.
pub struct UrlView {
    pub rendered: Seq<char>,
    pub scheme: Seq<char>,
    pub host: Seq<char>,
}

impl View for Url {
    type V = UrlView;

    closed spec fn view(&self) -> UrlView {
        UrlView { rendered: self.rendered@, scheme: self.scheme@, host: self.host@ }
    }
}

impl Url {
    /// Neither the scheme nor the host is empty.
    #[verifier::type_invariant]
    pub closed spec fn well_formed(&self) -> bool {
        self.scheme@.len() > 0 && self.host@.len() > 0
    }

    /// The URL's rendered form.
    pub fn as_str(&self) -> (r: &str)
        ensures
            r@ == self@.rendered,
    {
        self.rendered.as_str()
    }

    /// The scheme, without the colon. Never empty.
    pub fn scheme(&self) -> (r: &str)
        ensures
            r@ == self@.scheme,
            r@.len() > 0,
    {
        proof {
            use_type_invariant(self);
        }
        self.scheme.as_str()
    }

    /// The host. Never empty.
    pub fn host_str(&self) -> (r: &str)
        ensures
            r@ == self@.host,
            r@.len() > 0,
    {
        proof {
            use_type_invariant(self);
        }
        self.host.as_str()
    }
}

/// The cause reported for a URL that parses but names no host.
pub open spec fn missing_host_cause() -> Seq<char> {
    "URL has no host"@
}

/// The cause reported for a URL that parses to an empty scheme.
pub open spec fn missing_scheme_cause() -> Seq<char> {
    "URL has no scheme"@
}

/// Whether a parse result is fit for a request, and what it yields: the
/// URL's contents, or the cause for which it is refused.
pub open spec fn validated(parsed: Result<UrlPartsView, Seq<char>>) -> Result<UrlView, Seq<char>> {
    match parsed {
        Err(cause) => Err(cause),
        Ok(parts) => if parts.scheme.len() == 0 {
            Err(missing_scheme_cause())
        } else {
            match parts.host {
                Some(h) => if h.len() > 0 {
                    Ok(UrlView { rendered: parts.rendered, scheme: parts.scheme, host: h })
                } else {
                    Err(missing_host_cause())
                },
                None => Err(missing_host_cause()),
            }
        },
    }
}

/// Whether `r` is the resolution of `text` that `expected` calls for: the
/// URL with those contents, or `MalformedUrl` with the text and the cause.
pub open spec fn resolves_to(
    r: Result<Url, RequestError>,
    text: Seq<char>,
    expected: Result<UrlView, Seq<char>>,
) -> bool {
    match expected {
        Ok(view) => r matches Ok(url) && url@ == view,
        Err(cause) => r matches Err(RequestError::MalformedUrl { text: t, cause: c }) && t@ == text
            && c@ == cause,
    }
}

/// Decides what a parse result of `text` resolves to. A parse error is
/// passed on as `MalformedUrl` with the text and the error's message; an
/// accepted URL without a scheme or without a host is refused in the same
/// way; any other accepted URL is returned with its parts unchanged.
pub fn validate_parsed(text: &str, parsed: Result<UrlParts, String>) -> (r: Result<
    Url,
    RequestError,
>)
    ensures
        resolves_to(r, text@, validated(parse_outcome(parsed))),
{
    match parsed {
        Err(cause) => Err(RequestError::MalformedUrl { text: text.to_owned(), cause }),
        Ok(parts) => {
            if parts.scheme.as_str().is_empty() {
                Err(
                    RequestError::MalformedUrl {
                        text: text.to_owned(),
                        cause: "URL has no scheme".to_owned(),
                    },
                )
            } else {
                match parts.host {
                    Some(host) => {
                        if host.as_str().is_empty() {
                            Err(
                                RequestError::MalformedUrl {
                                    text: text.to_owned(),
                                    cause: "URL has no host".to_owned(),
                                },
                            )
                        } else {
                            Ok(Url { rendered: parts.rendered, scheme: parts.scheme, host })
                        }
                    },
                    None => Err(
                        RequestError::MalformedUrl {
                            text: text.to_owned(),
                            cause: "URL has no host".to_owned(),
                        },
                    ),
                }
            }
        },
    }
}

/// Resolves an address. Every text that the parser refuses, and every
/// URL without a scheme or a host, fails with `MalformedUrl` holding the
/// text and the cause; every other text gives the URL that the parser
/// rendered, with its scheme and host, and that rendered form starts with
/// the scheme and holds the host.
pub fn resolve_url(text: &str) -> (r: Result<Url, RequestError>)
    ensures
        resolves_to(r, text@, validated(url_parse(text@))),
        rendering_is_faithful(url_parse(text@)),
        r matches Ok(url) ==> url@.scheme.is_prefix_of(url@.rendered) && occurs_in(
            url@.host,
            url@.rendered,
        ),
{
    let parsed = parse_url(text);
    let r = validate_parsed(text, parsed);
    proof {
        lemma_resolution_keeps_scheme_and_host(r, text@, url_parse(text@));
    }
    r
}

/// A text that the parser refuses never resolves, and a resolved URL
/// always carries the scheme and the host that the parser found, neither
/// of them empty. Where the parser's rendering keeps the scheme and the
/// host, so does the resolved URL's.
pub proof fn lemma_resolution_keeps_scheme_and_host(
    r: Result<Url, RequestError>,
    text: Seq<char>,
    parsed: Result<UrlPartsView, Seq<char>>,
)
    requires
        resolves_to(r, text, validated(parsed)),
    ensures
        parsed is Err ==> r is Err,
        rendering_is_faithful(parsed) ==> (r matches Ok(url) ==> url@.scheme.is_prefix_of(
            url@.rendered,
        ) && occurs_in(url@.host, url@.rendered)),
        r matches Ok(url) ==> parsed matches Ok(parts) && url@.scheme == parts.scheme
            && parts.host == Some(url@.host) && url@.rendered == parts.rendered
            && url@.scheme.len() > 0 && url@.host.len() > 0,
        r matches Err(e) ==> e matches RequestError::MalformedUrl { text: t, cause: _ } && t@
            == text,
{
}

} // verus!
