use vstd::prelude::*;

use crate::client::{
    auth_header_name, caption_request_for, detect_request_for, initial_config, point_request_for,
    query_request_for, ConfigView,
};
use crate::types::CaptionLength;

verus! {

/// Asking for a caption without a length sends the same request as asking for
/// a caption of normal length.
pub proof fn caption_without_length_is_normal(cfg: ConfigView, image: Seq<char>)
    ensures
        caption_request_for(cfg, image, None) == caption_request_for(
            cfg,
            image,
            Some(CaptionLength::Normal),
        ),
{
}

/// A client made for a local endpoint sends, with each of the four requests, an
/// authentication header whose value is empty, and sends it to that endpoint.
pub proof fn local_client_sends_empty_token(
    endpoint: Seq<char>,
    image: Seq<char>,
    object: Seq<char>,
    length: Option<CaptionLength>,
    question: Seq<char>,
)
    ensures
        ({
            let cfg = ConfigView { endpoint, ..initial_config(Seq::empty()) };
            let empty = (auth_header_name(), Seq::<char>::empty());
            &&& point_request_for(cfg, image, object).headers[0] == empty
            &&& detect_request_for(cfg, image, object).headers[0] == empty
            &&& caption_request_for(cfg, image, length).headers[0] == empty
            &&& query_request_for(cfg, image, question).headers[0] == empty
            &&& point_request_for(cfg, image, object).url == endpoint + "/point"@
            &&& detect_request_for(cfg, image, object).url == endpoint + "/detect"@
            &&& caption_request_for(cfg, image, length).url == endpoint + "/caption"@
            &&& query_request_for(cfg, image, question).url == endpoint + "/query"@
        }),
{
}

} // verus!
