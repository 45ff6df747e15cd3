//! Where the remote helper is sent: to the seed of an organisation, which
//! a URL names, or to a project of the local peer.

use crate::text::{
    chars_of, ends_with, find_char, find_from, has_prefix, has_suffix, starts_with, string_of,
};
use vstd::prelude::*;
use vstd::string::*;

verus! {

/// The parts of a URL that the helper reads.
#[derive(Debug, PartialEq, Eq)]
pub struct UrlParts {
    pub scheme: String,
    pub cannot_be_a_base: bool,
    pub host: Option<String>,
    pub path: String,
}

/// What [`UrlParts`] hold.
pub struct UrlView {
    pub scheme: Seq<char>,
    pub cannot_be_a_base: bool,
    pub host: Option<Seq<char>>,
    pub path: Seq<char>,
}

impl View for UrlParts {
    type V = UrlView;

    open spec fn view(&self) -> UrlView {
        UrlView {
            scheme: self.scheme@,
            cannot_be_a_base: self.cannot_be_a_base,
            host: match self.host {
                Some(host) => Some(host@),
                None => None,
            },
            path: self.path@,
        }
    }
}

/// The parts of the URL that `input` is, if it is one.
pub uninterp spec fn url_parts(input: Seq<char>) -> Option<UrlView>;

/// Reads `input` as a URL with `url::Url::parse`, and takes its scheme,
/// whether it cannot be a base, its host and its path.
///
/// Trusted: the result is the reading named by [`url_parts`].
#[verifier::external_body]
pub(crate) fn parse_url(input: &str) -> (parts: Option<UrlParts>)
    ensures
        match parts {
            Some(parts) => url_parts(input@) == Some(parts@),
            None => url_parts(input@) is None,
        },
{
    let url = url::Url::parse(input).ok()?;
    Some(
        UrlParts {
            scheme: url.scheme().to_owned(),
            cannot_be_a_base: url.cannot_be_a_base(),
            host: url.host_str().map(str::to_owned),
            path: url.path().to_owned(),
        },
    )
}

/// Why an input names no remote.
#[derive(Clone, Copy, Debug, PartialEq, Eq, Structural)]
pub enum RemoteError {
    /// The scheme of the URL is not `radicle`.
    InvalidScheme,
    /// The URL cannot be a base.
    InvalidUrl,
    /// The URL has no host, or its host is neither a domain name nor an
    /// address.
    InvalidHost,
    /// The path of the URL does not start with a slash.
    MissingPath,
}

/// Where an input leads, as far as its text says.
#[derive(Debug, PartialEq, Eq)]
pub enum Located {
    /// To the seed of the organisation at `host`, for the project `urn`.
    Host { host: String, urn: String },
    /// To the project `urn` of the local peer.
    Project { urn: String },
}

/// What [`Located`] holds.
pub enum LocatedView {
    Host { host: Seq<char>, urn: Seq<char> },
    Project { urn: Seq<char> },
}

impl View for Located {
    type V = LocatedView;

    open spec fn view(&self) -> LocatedView {
        match self {
            Located::Host { host, urn } => LocatedView::Host { host: host@, urn: urn@ },
            Located::Project { urn } => LocatedView::Project { urn: urn@ },
        }
    }
}

/// `text` without `suffix` at its end, as often as it stands there.
pub open spec fn without_suffix(text: Seq<char>, suffix: Seq<char>) -> Seq<char>
    decreases text.len(),
{
    if suffix.len() > 0 && has_suffix(text, suffix) {
        without_suffix(text.subrange(0, text.len() - suffix.len()), suffix)
    } else {
        text
    }
}

/// The identifier of the project that `name` names.
pub open spec fn urn_of(name: Seq<char>) -> Seq<char> {
    "rad:git:"@ + name
}

/// Where `input` leads, given its reading as a URL. An input that is no
/// URL is the name of a project. A URL has to have the scheme `radicle`,
/// to be able to be a base, and to have a host and a path behind a slash;
/// `.git` at the end of the host does not count.
pub open spec fn located(input: Seq<char>, url: Option<UrlView>) -> Result<LocatedView, RemoteError> {
    match url {
        None => Ok(LocatedView::Project { urn: urn_of(input) }),
        Some(url) => if url.scheme != "radicle"@ {
            Err(RemoteError::InvalidScheme)
        } else if url.cannot_be_a_base {
            Err(RemoteError::InvalidUrl)
        } else {
            match url.host {
                None => Err(RemoteError::InvalidHost),
                Some(host) => if has_prefix(url.path, seq!['/']) {
                    Ok(
                        LocatedView::Host {
                            host: without_suffix(host, ".git"@),
                            urn: urn_of(url.path.subrange(1, url.path.len() as int)),
                        },
                    )
                } else {
                    Err(RemoteError::MissingPath)
                },
            }
        },
    }
}

/// `chars` without `suffix` at its end, as often as it stands there.
pub fn trim_end_matches(chars: &Vec<char>, suffix: &Vec<char>) -> (kept: usize)
    ensures
        kept <= chars.len(),
        chars@.subrange(0, kept as int) == without_suffix(chars@, suffix@),
{
    let mut kept: usize = chars.len();
    let mut rest: Vec<char> = Vec::new();
    let mut i: usize = 0;
    while i < chars.len()
        invariant
            i <= chars.len(),
            rest@ == chars@.subrange(0, i as int),
        decreases chars.len() - i,
    {
        rest.push(chars[i]);
        i += 1;
        assert(rest@ =~= chars@.subrange(0, i as int));
    }
    assert(chars@.subrange(0, chars@.len() as int) =~= chars@);
    while suffix.len() > 0 && ends_with(&rest, suffix)
        invariant
            kept <= chars.len(),
            rest@ == chars@.subrange(0, kept as int),
            without_suffix(rest@, suffix@) == without_suffix(chars@, suffix@),
        decreases kept,
    {
        let ghost before = rest@;
        let mut n: usize = 0;
        while n < suffix.len()
            invariant
                n <= suffix.len() <= before.len(),
                rest@ == before.subrange(0, before.len() - n),
            decreases suffix.len() - n,
        {
            rest.pop();
            n += 1;
            assert(rest@ =~= before.subrange(0, before.len() - n));
        }
        kept = kept - suffix.len();
        assert(rest@ =~= chars@.subrange(0, kept as int));
    }
    kept
}

/// The identifier of the project that `name` names.
pub fn urn_text(name: &str) -> (urn: String)
    ensures
        urn@ == urn_of(name@),
{
    let mut urn = String::from_str("rad:git:");
    urn.append(name);
    urn
}

/// Where `input` leads, given its reading as a URL.
pub fn locate_in(input: &str, url: Option<UrlParts>) -> (result: Result<Located, RemoteError>)
    ensures
        match result {
            Ok(place) => located(
                input@,
                match url {
                    Some(url) => Some(url@),
                    None => None,
                },
            ) == Ok::<LocatedView, RemoteError>(place@),
            Err(error) => located(
                input@,
                match url {
                    Some(url) => Some(url@),
                    None => None,
                },
            ) == Err::<LocatedView, RemoteError>(error),
        },
{
    let url = match url {
        None => return Ok(Located::Project { urn: urn_text(input) }),
        Some(url) => url,
    };
    if url.scheme != String::from_str("radicle") {
        return Err(RemoteError::InvalidScheme);
    }
    if url.cannot_be_a_base {
        return Err(RemoteError::InvalidUrl);
    }
    let host = match url.host {
        None => return Err(RemoteError::InvalidHost),
        Some(host) => chars_of(host.as_str()),
    };
    let path = chars_of(url.path.as_str());
    let mut slash: Vec<char> = Vec::new();
    slash.push('/');
    assert(slash@ =~= seq!['/']);
    if !starts_with(&path, &slash) {
        return Err(RemoteError::MissingPath);
    }
    let kept = trim_end_matches(&host, &chars_of(".git"));
    let name = string_of(&path, 1, path.len());
    Ok(Located::Host { host: string_of(&host, 0, kept), urn: urn_text(name.as_str()) })
}

/// Where `input` leads: to the seed of an organisation if it is a URL,
/// else to a project of the local peer.
pub fn locate(input: &str) -> (result: Result<Located, RemoteError>)
    ensures
        match result {
            Ok(place) => located(input@, url_parts(input@)) == Ok::<LocatedView, RemoteError>(place@),
            Err(error) => located(input@, url_parts(input@)) == Err::<LocatedView, RemoteError>(error),
        },
{
    locate_in(input, parse_url(input))
}

/// An organisation: known by its address, or by its name.
#[derive(Debug, PartialEq, Eq)]
pub enum Org {
    Address(String),
    Name(String),
}

/// The organisation at `host`, given whether `host` is an address: a host
/// that is no address has to be a domain name, which is to say hold a dot.
pub fn org_of(host: String, is_address: bool) -> (result: Result<Org, RemoteError>)
    ensures
        match result {
            Ok(Org::Address(address)) => is_address && address == host,
            Ok(Org::Name(name)) => !is_address && name == host && find_from(host@, '.', 0) < host@.len(),
            Err(error) => !is_address && find_from(host@, '.', 0) >= host@.len() && error
                == RemoteError::InvalidHost,
        },
{
    if is_address {
        return Ok(Org::Address(host));
    }
    let chars = chars_of(host.as_str());
    if find_char(&chars, '.', 0) < chars.len() {
        Ok(Org::Name(host))
    } else {
        Err(RemoteError::InvalidHost)
    }
}

/// The domain of the seed where it needs no lookup: the name of an
/// organisation that does not end in `.eth`.
pub fn plain_domain(org: &Org) -> (domain: Option<String>)
    ensures
        match domain {
            Some(domain) => org matches Org::Name(name) && !has_suffix(name@, ".eth"@) && domain@
                == name@,
            None => org matches Org::Name(name) ==> has_suffix(name@, ".eth"@),
        },
{
    match org {
        Org::Name(name) => {
            if ends_with(&chars_of(name.as_str()), &chars_of(".eth")) {
                None
            } else {
                Some(name.clone())
            }
        },
        Org::Address(_) => None,
    }
}

/// The URL of the node to ask, given the setting of `ETH_RPC_URL`: the
/// setting, unless it is missing or empty.
pub fn rpc_url(setting: Option<String>) -> (url: Option<String>)
    ensures
        match setting {
            Some(text) => if text@.len() == 0 {
                url is None
            } else {
                url == Some(text)
            },
            None => url is None,
        },
{
    match setting {
        Some(text) => if text.as_str().is_empty() {
            None
        } else {
            Some(text)
        },
        None => None,
    }
}

/// The URL under which the seed at `domain` serves the project `id`.
pub fn seed_url(domain: &str, id: &str) -> (url: String)
    ensures
        url@ == "https://"@ + domain@ + seq!['/'] + id@,
{
    let mut url = String::from_str("https://");
    url.append(domain);
    url.append("/");
    url.append(id);
    proof {
        reveal_strlit("/");
        assert("/"@ =~= seq!['/']);
        assert(url@ =~= "https://"@ + domain@ + seq!['/'] + id@);
    }
    url
}

} // verus!
