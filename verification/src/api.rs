//! The server endpoints: the client value and the exact URLs it calls.
//! Sending the requests and decoding the responses is the transport's
//! concern; the library builds and owns every URL.

use vstd::prelude::*;
use vstd::string::StringSliceAdditionalSpecFns;

use crate::numfmt::{digit_to_char, i64_to_string, int_str};
use crate::text::{trim_trailing_slashes, trimmed_slashes};

verus! {

/// Whether a byte travels unencoded in a URL: ASCII alphanumerics and
/// `-`, `.`, `_`, `~`.
pub open spec fn url_safe(b: u8) -> bool {
    ||| 0x30 <= b <= 0x39
    ||| 0x41 <= b <= 0x5A
    ||| 0x61 <= b <= 0x7A
    ||| b == 0x2D
    ||| b == 0x2E
    ||| b == 0x5F
    ||| b == 0x7E
}

/// The uppercase hexadecimal digit for a value below sixteen.
pub open spec fn hex_upper(d: u8) -> char {
    if d < 10 {
        digit_to_char(d as int)
    } else if d == 10 {
        'A'
    } else if d == 11 {
        'B'
    } else if d == 12 {
        'C'
    } else if d == 13 {
        'D'
    } else if d == 14 {
        'E'
    } else {
        'F'
    }
}

/// One byte percent-encoded: safe bytes stay themselves, every other byte
/// becomes a percent sign and two uppercase hex digits.
pub open spec fn encoded_byte(b: u8) -> Seq<char> {
    if url_safe(b) {
        seq![b as char]
    } else {
        seq!['%', hex_upper(b / 16), hex_upper(b % 16)]
    }
}

/// A byte string percent-encoded, byte by byte.
pub open spec fn percent_encoded(bs: Seq<u8>) -> Seq<char>
    decreases bs.len(),
{
    if bs.len() == 0 {
        Seq::empty()
    } else {
        encoded_byte(bs[0]) + percent_encoded(bs.drop_first())
    }
}

/// Relies on urlencoding's `encode`: percent-encodes every byte of the
/// string's UTF-8 form except ASCII alphanumerics and `-`, `.`, `_`, `~`,
/// with uppercase hex digits.
#[verifier::external_body]
fn url_encode(s: &str) -> (r: String)
    ensures
        r@ == percent_encoded(s.spec_bytes()),
{
    urlencoding::encode(s).into_owned()
}

/// The client for one archive server: the server's base URL and the API key
/// sent with each request. Building URLs is verified; the transport performs
/// the calls.
#[derive(Debug, Clone)]
pub struct ApiClient {
    /// Base URL, held without trailing slashes.
    pub base_url: String,
    /// API key, when one is configured.
    pub api_key: Option<String>,
}

impl ApiClient {
    /// Create a new client; trailing slashes of the base URL are dropped.
    pub fn new(base_url: String, api_key: Option<String>) -> (r: Self)
        ensures
            r.base_url@ == trimmed_slashes(base_url@),
            r.api_key == api_key,
    {
        ApiClient { base_url: trim_trailing_slashes(base_url.as_str()), api_key }
    }

    /// The health endpoint, checked first on startup.
    pub fn health_url(&self) -> (r: String)
        ensures
            r@ == self.base_url@ + "/health"@,
    {
        self.base_url.clone().concat("/health")
    }

    /// The archive statistics endpoint.
    pub fn stats_url(&self) -> (r: String)
        ensures
            r@ == self.base_url@ + "/api/v1/stats"@,
    {
        self.base_url.clone().concat("/api/v1/stats")
    }

    /// The aggregates endpoint with its view type, sort field and order.
    pub fn aggregates_url(
        &self,
        view_type: crate::types::ViewType,
        sort_field: crate::types::SortField,
        sort_dir: crate::types::SortDirection,
    ) -> (r: String)
        ensures
            r@ == self.base_url@ + "/api/v1/aggregates?view_type="@ + view_type.as_str_spec()
                + "&sort="@ + sort_field.as_str_spec() + "&order="@ + sort_dir.as_str_spec(),
    {
        self.base_url.clone().concat("/api/v1/aggregates?view_type=").concat(
            view_type.as_str(),
        ).concat("&sort=").concat(sort_field.as_str()).concat("&order=").concat(sort_dir.as_str())
    }

    /// The filtered message list endpoint, without its query string; the
    /// transport appends the filter, offset and limit as query parameters.
    pub fn messages_filter_url(&self) -> (r: String)
        ensures
            r@ == self.base_url@ + "/api/v1/messages/filter"@,
    {
        self.base_url.clone().concat("/api/v1/messages/filter")
    }

    /// The endpoint of one message's detail.
    pub fn message_detail_url(&self, message_id: i64) -> (r: String)
        ensures
            r@ == self.base_url@ + "/api/v1/messages/"@ + int_str(message_id as int),
    {
        self.base_url.clone().concat("/api/v1/messages/").concat(
            i64_to_string(message_id).as_str(),
        )
    }

    /// The endpoint of one attachment's bytes.
    pub fn attachment_url(&self, message_id: i64, attachment_idx: i64) -> (r: String)
        ensures
            r@ == self.base_url@ + "/api/v1/messages/"@ + int_str(message_id as int)
                + "/attachments/"@ + int_str(attachment_idx as int),
    {
        self.base_url.clone().concat("/api/v1/messages/").concat(
            i64_to_string(message_id).as_str(),
        ).concat("/attachments/").concat(i64_to_string(attachment_idx).as_str())
    }

    /// The fast search endpoint, without its query string.
    pub fn search_fast_url(&self) -> (r: String)
        ensures
            r@ == self.base_url@ + "/api/v1/search/fast"@,
    {
        self.base_url.clone().concat("/api/v1/search/fast")
    }

    /// The deep search endpoint, without its query string.
    pub fn search_deep_url(&self) -> (r: String)
        ensures
            r@ == self.base_url@ + "/api/v1/search/deep"@,
    {
        self.base_url.clone().concat("/api/v1/search/deep")
    }

    /// The scheduler status endpoint.
    pub fn scheduler_status_url(&self) -> (r: String)
        ensures
            r@ == self.base_url@ + "/api/v1/scheduler/status"@,
    {
        self.base_url.clone().concat("/api/v1/scheduler/status")
    }

    /// The endpoint that triggers a sync for one account; the email travels
    /// percent-encoded.
    pub fn trigger_sync_url(&self, email: &str) -> (r: String)
        ensures
            r@ == self.base_url@ + "/api/v1/sync/"@ + percent_encoded(email.spec_bytes()),
    {
        self.base_url.clone().concat("/api/v1/sync/").concat(url_encode(email).as_str())
    }

    /// The endpoint that starts account authorization.
    pub fn initiate_oauth_url(&self, email: &str) -> (r: String)
        ensures
            r@ == self.base_url@ + "/api/v1/auth/initiate/"@ + percent_encoded(
                email.spec_bytes(),
            ),
    {
        self.base_url.clone().concat("/api/v1/auth/initiate/").concat(url_encode(email).as_str())
    }

    /// The endpoint polled for the device flow's outcome.
    pub fn device_flow_url(&self, email: &str) -> (r: String)
        ensures
            r@ == self.base_url@ + "/api/v1/auth/device/"@ + percent_encoded(email.spec_bytes())
                + "/status"@,
    {
        self.base_url.clone().concat("/api/v1/auth/device/").concat(
            url_encode(email).as_str(),
        ).concat("/status")
    }

    /// The endpoint that removes one account.
    pub fn remove_account_url(&self, email: &str) -> (r: String)
        ensures
            r@ == self.base_url@ + "/api/v1/accounts/"@ + percent_encoded(email.spec_bytes()),
    {
        self.base_url.clone().concat("/api/v1/accounts/").concat(url_encode(email).as_str())
    }

    /// The endpoint of one thread's messages.
    pub fn thread_url(&self, thread_id: &str) -> (r: String)
        ensures
            r@ == self.base_url@ + "/api/v1/threads/"@ + percent_encoded(thread_id.spec_bytes()),
    {
        self.base_url.clone().concat("/api/v1/threads/").concat(url_encode(thread_id).as_str())
    }
}

} // verus!
