use vstd::prelude::*;

use crate::timeout::Timeout;

verus! {

/// One HTTP POST to the service, as it is sent.
#[derive(Debug, Clone)]
pub struct Request {
    /// The full URL: the base endpoint followed by the operation's path.
    pub url: String,
    /// Headers in the order they are sent, the authentication header first.
    pub headers: Vec<(String, String)>,
    /// How long the call may take before it fails.
    pub timeout: Timeout,
    /// The JSON body.
    pub body: String,
}

/// The mathematical value of a [`Request`].
pub struct RequestView {
    pub url: Seq<char>,
    pub headers: Seq<(Seq<char>, Seq<char>)>,
    /// The timeout in nanoseconds.
    pub timeout: nat,
    pub body: Seq<char>,
}

/// Header names and values as character sequences, in order.
pub open spec fn header_views(h: Seq<(String, String)>) -> Seq<(Seq<char>, Seq<char>)> {
    h.map_values(|p: (String, String)| (p.0@, p.1@))
}

impl View for Request {
    type V = RequestView;

    open spec fn view(&self) -> RequestView {
        RequestView {
            url: self.url@,
            headers: header_views(self.headers@),
            timeout: self.timeout@,
            body: self.body@,
        }
    }
}

} // verus!
