//! Client for the Moondream vision API.
//!
//! The library holds the client's configuration and builds, for each of the
//! `/point`, `/detect`, `/caption` and `/query` endpoints, the exact request
//! that is sent: its URL, its headers, its timeout and its JSON body.
mod body;
mod client;
mod laws;
mod request;
mod timeout;
mod types;

pub use body::{build_body, json_string_of, request_body};
pub use client::{
    auth_header_name, caption_request_for, default_endpoint, default_timeout, detect_request_for,
    initial_config, length_or_default, point_request_for, query_request_for, request_for, ConfigView,
    MoonDream,
};
pub use laws::{caption_without_length_is_normal, local_client_sends_empty_token};
pub use request::{header_views, Request, RequestView};
pub use timeout::{Timeout, NANOS_PER_SEC};
pub use types::{CaptionLength, CaptionResponse, QueryResponse};
