use vstd::prelude::*;

use crate::body::{build_body, request_body};
use crate::request::{header_views, Request, RequestView};
use crate::timeout::{Timeout, NANOS_PER_SEC};
use crate::types::CaptionLength;

verus! {

/// The hosted service's base endpoint.
pub open spec fn default_endpoint() -> Seq<char> {
    "https://api.moondream.ai/v1"@
}

/// The timeout of a new client, in nanoseconds: five seconds.
pub open spec fn default_timeout() -> nat {
    5 * NANOS_PER_SEC as nat
}

/// The name of the header that carries the access token.
pub open spec fn auth_header_name() -> Seq<char> {
    "X-Moondream-Auth"@
}

/// The mathematical value of a [`MoonDream`] client's configuration.
pub struct ConfigView {
    pub token: Seq<char>,
    pub endpoint: Seq<char>,
    pub headers: Seq<(Seq<char>, Seq<char>)>,
    /// The timeout in nanoseconds.
    pub timeout: nat,
}

/// The configuration of a new client with the given token.
pub open spec fn initial_config(token: Seq<char>) -> ConfigView {
    ConfigView {
        token,
        endpoint: default_endpoint(),
        headers: Seq::empty(),
        timeout: default_timeout(),
    }
}

/// The request that a client with configuration `cfg` sends to `path`, for
/// `image` and the operation's field `key` set to `value`.
pub open spec fn request_for(
    cfg: ConfigView,
    path: Seq<char>,
    image: Seq<char>,
    key: Seq<char>,
    value: Seq<char>,
) -> RequestView {
    RequestView {
        url: cfg.endpoint + path,
        headers: seq![(auth_header_name(), cfg.token)] + cfg.headers,
        timeout: cfg.timeout,
        body: request_body(image, key, value),
    }
}

/// The `/point` request for `object` in `image`.
pub open spec fn point_request_for(cfg: ConfigView, image: Seq<char>, object: Seq<char>) -> RequestView {
    request_for(cfg, "/point"@, image, "object"@, object)
}

/// The `/detect` request for `object` in `image`.
pub open spec fn detect_request_for(cfg: ConfigView, image: Seq<char>, object: Seq<char>) -> RequestView {
    request_for(cfg, "/detect"@, image, "object"@, object)
}

/// The caption length that is sent: `Normal` where none is given.
pub open spec fn length_or_default(length: Option<CaptionLength>) -> CaptionLength {
    match length {
        Some(l) => l,
        None => CaptionLength::Normal,
    }
}

/// The `/caption` request for `image`.
pub open spec fn caption_request_for(
    cfg: ConfigView,
    image: Seq<char>,
    length: Option<CaptionLength>,
) -> RequestView {
    request_for(cfg, "/caption"@, image, "length"@, length_or_default(length).wire_name())
}

/// The `/query` request that asks `question` about `image`.
pub open spec fn query_request_for(cfg: ConfigView, image: Seq<char>, question: Seq<char>) -> RequestView {
    request_for(cfg, "/query"@, image, "question"@, question)
}

/// Client for the Moondream API: its token, base endpoint, extra headers and
/// timeout.
///
/// Use [`MoonDream::remote`] with an API key or [`MoonDream::local`] for an
/// unauthenticated local deployment. The token is fixed at construction; the
/// other settings are replaced through the `with_` methods, each of which
/// returns the changed client.
#[derive(Debug, Clone)]
pub struct MoonDream {
    token: String,
    endpoint: String,
    headers: Vec<(String, String)>,
    timeout: Timeout,
}

impl View for MoonDream {
    type V = ConfigView;

    closed spec fn view(&self) -> ConfigView {
        ConfigView {
            token: self.token@,
            endpoint: self.endpoint@,
            headers: header_views(self.headers@),
            timeout: self.timeout@,
        }
    }
}

impl MoonDream {
    /// A client with the given token, the hosted endpoint, no extra headers
    /// and a timeout of five seconds.
    pub fn new(token: String) -> (r: MoonDream)
        ensures
            r@ == initial_config(token@),
    {
        let r = MoonDream {
            token,
            endpoint: String::from_str("https://api.moondream.ai/v1"),
            headers: Vec::new(),
            timeout: Timeout::from_secs(5),
        };
        assert(header_views(r.headers@) =~= Seq::empty());
        r
    }

    /// A client for a local service that needs no authentication: the token is
    /// empty and requests go to `endpoint`.
    pub fn local(endpoint: &str) -> (r: MoonDream)
        ensures
            r@ == (ConfigView { endpoint: endpoint@, ..initial_config(Seq::empty()) }),
    {
        MoonDream::new(String::new()).with_endpoint(endpoint)
    }

    /// A client for the hosted service, authenticated by `token`.
    pub fn remote(token: &str) -> (r: MoonDream)
        ensures
            r@ == initial_config(token@),
    {
        MoonDream::new(String::from_str(token))
    }

    /// The client with its base endpoint replaced.
    pub fn with_endpoint(self, endpoint: &str) -> (r: MoonDream)
        ensures
            r@ == (ConfigView { endpoint: endpoint@, ..self@ }),
    {
        MoonDream { endpoint: String::from_str(endpoint), ..self }
    }

    /// The client with its extra headers replaced.
    pub fn with_headers(self, headers: Vec<(String, String)>) -> (r: MoonDream)
        ensures
            r@ == (ConfigView { headers: header_views(headers@), ..self@ }),
    {
        MoonDream { headers, ..self }
    }

    /// The client with its timeout replaced; nothing else changes.
    pub fn with_timeout(self, timeout: Timeout) -> (r: MoonDream)
        ensures
            r@ == (ConfigView { timeout: timeout@, ..self@ }),
    {
        MoonDream { timeout, ..self }
    }

    /// The access token sent with every request.
    pub fn token(&self) -> (r: &str)
        ensures
            r@ == self@.token,
    {
        self.token.as_str()
    }

    /// The base endpoint that operation paths are appended to.
    pub fn endpoint(&self) -> (r: &str)
        ensures
            r@ == self@.endpoint,
    {
        self.endpoint.as_str()
    }

    /// The extra headers sent after the authentication header.
    pub fn headers(&self) -> (r: &Vec<(String, String)>)
        ensures
            header_views(r@) == self@.headers,
    {
        &self.headers
    }

    /// The timeout applied to each request.
    pub fn timeout(&self) -> (r: Timeout)
        ensures
            r@ == self@.timeout,
    {
        self.timeout
    }

    /// The headers of every request: the authentication header carrying the
    /// token, then the extra headers in order.
    fn request_headers(&self) -> (r: Vec<(String, String)>)
        ensures
            header_views(r@) == seq![(auth_header_name(), self@.token)] + self@.headers,
    {
        let mut out: Vec<(String, String)> = Vec::new();
        out.push((String::from_str("X-Moondream-Auth"), self.token.clone()));
        let ghost first = seq![(auth_header_name(), self@.token)];
        assert(header_views(out@) =~= first);
        let mut i: usize = 0;
        while i < self.headers.len()
            invariant
                i <= self.headers@.len(),
                header_views(out@) =~= first + header_views(self.headers@.subrange(0, i as int)),
            decreases self.headers@.len() - i,
        {
            let name = self.headers[i].0.clone();
            let value = self.headers[i].1.clone();
            proof {
                let done = self.headers@.subrange(0, i as int);
                assert(self.headers@.subrange(0, i + 1) =~= done.push(self.headers@[i as int]));
                assert(header_views(done.push(self.headers@[i as int])) =~= header_views(done).push(
                    (name@, value@),
                ));
                assert(header_views(out@.push((name, value))) =~= header_views(out@).push(
                    (name@, value@),
                ));
            }
            out.push((name, value));
            i = i + 1;
        }
        assert(self.headers@.subrange(0, self.headers@.len() as int) =~= self.headers@);
        out
    }

    /// The request to `path` for `image` with the field `key` set to `value`.
    fn request(&self, path: &str, image: &str, key: &str, value: &str) -> (r: Request)
        ensures
            r@ == request_for(self@, path@, image@, key@, value@),
    {
        let mut url = self.endpoint.clone();
        url.append(path);
        Request {
            url,
            headers: self.request_headers(),
            timeout: self.timeout,
            body: build_body(image, key, value),
        }
    }

    /// The `/point` request that asks for the centre of each `object` in `image`.
    pub fn point_request(&self, image: &str, object: &str) -> (r: Request)
        ensures
            r@ == point_request_for(self@, image@, object@),
    {
        self.request("/point", image, "object", object)
    }

    /// The `/detect` request that asks for the bounding box of each `object` in `image`.
    pub fn detect_request(&self, image: &str, object: &str) -> (r: Request)
        ensures
            r@ == detect_request_for(self@, image@, object@),
    {
        self.request("/detect", image, "object", object)
    }

    /// The `/caption` request for `image`; without a length the caption is of
    /// normal length.
    pub fn caption_request(&self, image: &str, length: Option<CaptionLength>) -> (r: Request)
        ensures
            r@ == caption_request_for(self@, image@, length),
    {
        let length = match length {
            Some(l) => l,
            None => CaptionLength::Normal,
        };
        self.request("/caption", image, "length", length.as_str())
    }

    /// The `/query` request that asks `question` about `image`.
    pub fn query_request(&self, image: &str, question: &str) -> (r: Request)
        ensures
            r@ == query_request_for(self@, image@, question@),
    {
        self.request("/query", image, "question", question)
    }
}

} // verus!
