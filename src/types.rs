use vstd::prelude::*;

verus! {

/// Controls the length of the caption returned by the `/caption` endpoint.
#[derive(Debug, Clone, Copy, PartialEq, Eq, Structural)]
pub enum CaptionLength {
    /// A brief caption.
    Short,
    /// A normal length caption.
    Normal,
}

impl CaptionLength {
    /// The word that stands for this length on the wire.
    pub open spec fn wire_name(self) -> Seq<char> {
        match self {
            CaptionLength::Short => "short"@,
            CaptionLength::Normal => "normal"@,
        }
    }

    pub fn as_str(&self) -> (r: &'static str)
        ensures
            r@ == self.wire_name(),
    {
        match self {
            CaptionLength::Short => "short",
            CaptionLength::Normal => "normal",
        }
    }
}

/// Response from the `/query` endpoint (visual question answering).
#[derive(Debug, PartialEq, Clone)]
pub struct QueryResponse {
    /// Unique request identifier returned by the API.
    pub request_id: Option<String>,
    /// Answer returned for the asked question.
    pub answer: String,
}

/// Response from the `/caption` endpoint.
#[derive(Debug, PartialEq, Clone)]
pub struct CaptionResponse {
    /// Unique request identifier returned by the API.
    pub request_id: Option<String>,
    /// The generated caption text.
    pub caption: String,
}

} // verus!
