//! The address of the token service.
//!
//! URLs are parsed and rewritten by the `url` crate. What it makes of a text
//! is taken on trust and given a name; the rest is proved from there.

use vstd::prelude::*;
use vstd::utf8::encode_utf8;

verus! {

/// `url::ParseError`, the reason for which the `url` crate refuses a text.
/// Nothing is known of a value but that it is one.
#[verifier::external_type_specification]
#[verifier::external_body]
pub struct ExParseError(url::ParseError);

/// The serialisation of the URL that `url::Url::parse` reads from `input`,
/// or nothing where it refuses `input`.
pub uninterp spec fn parsed_url(input: Seq<char>) -> Option<Seq<char>>;

/// The serialisation that `url::Url::set_path` leaves when it is called with
/// `path` on the URL read from `input`.
pub uninterp spec fn url_with_path(input: Seq<char>, path: Seq<char>) -> Seq<char>;

/// The path of the service's one endpoint.
pub open spec fn token_path() -> Seq<char> {
    "request-token"@
}

/// Whether a URL whose serialisation is `url` can take `path` without
/// outgrowing what the `url` crate can index.
pub open spec fn path_fits(url: Seq<char>, path: Seq<char>) -> bool {
    encode_utf8(url).len() + 4 * encode_utf8(path).len() + 16 <= u32::MAX
}

/// Calls `url::Url::parse` and hands back the URL's serialisation. Trusted:
/// the result is a function of `input` alone, named `parsed_url`.
#[verifier::external_body]
fn parse_url(input: &str) -> (parsed: Result<String, url::ParseError>)
    ensures
        parsed is Ok <==> parsed_url(input@) is Some,
        parsed is Ok ==> Some(parsed->Ok_0@) == parsed_url(input@),
{
    url::Url::parse(input).map(String::from)
}

/// Calls `url::Url::set_path` on the URL read from `input` and hands back
/// the serialisation. Trusted: the result is a function of the two texts
/// alone, named `url_with_path`. The call indexes the serialisation with 32
/// bits and gives up beyond; `path_fits` keeps it well below.
#[verifier::external_body]
fn set_url_path(input: &str, path: &str) -> (rewritten: String)
    requires
        parsed_url(input@) is Some,
        path_fits(parsed_url(input@)->Some_0, path@),
    ensures
        rewritten@ == url_with_path(input@, path@),
{
    let mut url = url::Url::parse(input).unwrap();
    url.set_path(path);
    String::from(url)
}

/// A client of the token service.
pub struct Client {
    server_url: String,
    serialization: String,
}

impl Client {
    #[verifier::type_invariant]
    spec fn well_formed(&self) -> bool {
        parsed_url(self.server_url@) == Some(self.serialization@)
    }

    /// The text that the client was made from.
    pub closed spec fn address(&self) -> Seq<char> {
        self.server_url@
    }

    /// A client for the service at `server_url`, if that is a URL.
    pub fn new(server_url: &str) -> (client: Result<Client, url::ParseError>)
        ensures
            client is Ok <==> parsed_url(server_url@) is Some,
            client is Ok ==> client->Ok_0.address() == server_url@,
    {
        match parse_url(server_url) {
            Ok(serialization) => Ok(Client { server_url: server_url.to_owned(), serialization }),
            Err(error) => Err(error),
        }
    }

    /// The server's URL.
    pub fn server_url(&self) -> (url: &str)
        ensures
            Some(url@) == parsed_url(self.address()),
    {
        proof {
            use_type_invariant(self);
        }
        self.serialization.as_str()
    }

    /// The server's URL with its path replaced by `path`.
    pub fn endpoint(&self, path: &str) -> (url: String)
        requires
            parsed_url(self.address()) is Some ==> path_fits(
                parsed_url(self.address())->Some_0,
                path@,
            ),
        ensures
            url@ == url_with_path(self.address(), path@),
    {
        proof {
            use_type_invariant(self);
        }
        set_url_path(self.server_url.as_str(), path)
    }

    /// The server's URL with its path replaced by `path`, or nothing where
    /// the two are too long together.
    pub fn try_endpoint(&self, path: &str) -> (url: Option<String>)
        ensures
            parsed_url(self.address()) is Some,
            url is Some <==> path_fits(parsed_url(self.address())->Some_0, path@),
            url is Some ==> url->Some_0@ == url_with_path(self.address(), path@),
    {
        proof {
            use_type_invariant(self);
        }
        let url_len = self.serialization.as_str().as_bytes().len();
        let path_len = path.as_bytes().len();
        if path_len <= 0xffff_ffff && url_len <= 0xffff_ffff && (url_len as u64) + 4 * (
        path_len as u64) + 16 <= 0xffff_ffff {
            Some(self.endpoint(path))
        } else {
            None
        }
    }

    /// The URL to ask for a token.
    pub fn token_endpoint(&self) -> (url: Option<String>)
        ensures
            parsed_url(self.address()) is Some,
            url is Some <==> path_fits(parsed_url(self.address())->Some_0, token_path()),
            url is Some ==> url->Some_0@ == url_with_path(self.address(), token_path()),
    {
        self.try_endpoint("request-token")
    }
}

} // verus!
