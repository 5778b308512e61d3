//! URLs, by the parts that the library reads.
use vstd::prelude::*;
use crate::text::{join_texts, split_text};

verus! {

/// The parts of a URL as plain characters: its normal form, scheme, host and port.
pub struct UrlParts {
    pub text: Seq<char>,
    pub scheme: Seq<char>,
    pub host: Option<Seq<char>>,
    pub port: Option<u16>,
}

/// A URL that `url::Url` accepted.
#[derive(Debug, PartialEq, Eq)]
pub struct WebUrl {
    /// The URL in its normal form.
    pub text: String,
    /// The scheme, lower case, without the colon.
    pub scheme: String,
    /// The host, where the URL has one.
    pub host: Option<String>,
    /// The port, where the URL gives one that is not the scheme's default.
    pub port: Option<u16>,
}

impl View for WebUrl {
    type V = UrlParts;

    open spec fn view(&self) -> UrlParts {
        UrlParts {
            text: self.text@,
            scheme: self.scheme@,
            host: crate::text::opt_view(self.host),
            port: self.port,
        }
    }
}

/// What `url::Url` makes of a text: the parts of the URL, or nothing where the text
/// is no absolute URL.
pub uninterp spec fn url_parts(text: Seq<char>) -> Option<UrlParts>;

/// `url::Url::parse`, with `as_str`, `scheme`, `host_str` and `port` of the URL that
/// it gives: the parts depend on the text alone, and what they are on a given text is
/// left to that crate.
#[verifier::external_body]
fn parse_url(text: &str) -> (res: Option<WebUrl>)
    ensures
        match res {
            Some(url) => url_parts(text@) == Some(url@),
            None => url_parts(text@) is None,
        },
{
    let url = url::Url::parse(text).ok()?;
    Some(WebUrl {
        text: url.as_str().to_string(),
        scheme: url.scheme().to_string(),
        host: url.host_str().map(str::to_string),
        port: url.port(),
    })
}

/// The first parts of a text between slashes, at most three, joined again.
pub open spec fn up_to_third_slash(text: Seq<char>) -> Seq<char> {
    let parts = crate::text::split(text, '/');
    let count: int = if parts.len() < 3 {
        parts.len() as int
    } else {
        3
    };
    crate::text::join(parts.take(count), seq!['/'])
}

/// The origin that a URL is served from: scheme and host where there is a host, and
/// else the URL up to its third slash.
pub open spec fn allowed_host(url: UrlParts) -> Seq<char> {
    match url.host {
        Some(host) => url.scheme + "://"@ + host,
        None => up_to_third_slash(url.text),
    }
}

impl WebUrl {
    /// Reads a URL.
    pub fn parse(text: &str) -> (res: Option<WebUrl>)
        ensures
            match res {
                Some(url) => url_parts(text@) == Some(url@),
                None => url_parts(text@) is None,
            },
    {
        parse_url(text)
    }

    /// Copies a URL.
    pub fn copy(&self) -> (res: WebUrl)
        ensures
            res == *self,
    {
        WebUrl {
            text: self.text.clone(),
            scheme: self.scheme.clone(),
            host: crate::text::clone_optional(&self.host),
            port: self.port,
        }
    }

    /// The origin that the URL is served from.
    pub fn allowed_host(&self) -> (res: String)
        ensures
            res@ == allowed_host(self@),
    {
        match &self.host {
            Some(host) => {
                let mut res = self.scheme.clone();
                res.append("://");
                res.append(host.as_str());
                res
            },
            None => {
                let mut parts = split_text(self.text.as_str(), '/');
                let ghost all = parts@;
                if parts.len() > 3 {
                    parts.truncate(3);
                }
                proof {
                    reveal_strlit("/");
                    let count: int = if all.len() < 3 {
                        all.len() as int
                    } else {
                        3
                    };
                    assert(parts@ == all.take(count));
                    assert(crate::text::views(parts@) == crate::text::views(all).take(count));
                    assert("/"@ == seq!['/']);
                }
                join_texts(&parts, "/")
            },
        }
    }
}

} // verus!
