//! From a configuration, or from the marker of a saved request, to the
//! request to dispatch.

use crate::config::types::GemonType;
use crate::config::{ConfigView, GemonConfig};
use crate::constants::AUTHORIZATION;
use crate::request::rest_request::{GemonRestRequest, GemonRestRequestBuilder, RestRequestView};
use crate::text::{chars_of, is_text, text_of};
use vstd::prelude::*;
use vstd::string::StringExecFns;

verus! {

/// The headers of the request of a configuration: those of the
/// configuration, and the authorization of the project where the request is
/// marked secure, carries no authorization header of its own, and the
/// project has one.
pub open spec fn secured_headers(c: ConfigView, authorization: Option<Seq<char>>) -> Map<
    Seq<char>,
    Seq<char>,
> {
    if c.secure && !c.headers.contains_key(AUTHORIZATION@) && authorization is Some {
        c.headers.insert(AUTHORIZATION@, authorization.unwrap())
    } else {
        c.headers
    }
}

/// The REST request of a configuration: the method defaults to `Get` and the
/// URL to the empty text.
pub open spec fn rest_request_of(c: ConfigView, authorization: Option<Seq<char>>) -> RestRequestView {
    RestRequestView {
        method: match c.method {
            Some(m) => m,
            None => crate::config::types::GemonMethodType::Get,
        },
        uri: match c.url {
            Some(u) => u,
            None => Seq::empty(),
        },
        headers: secured_headers(c, authorization),
        body: c.body,
        form_data: c.form_data,
    }
}

/// The request kind that a marker names, if it names one.
pub open spec fn kind_of_marker(marker: Seq<char>) -> Option<GemonType> {
    if marker == "REST"@ {
        Some(GemonType::Rest)
    } else if marker == "WEBSOCKET"@ {
        Some(GemonType::Websocket)
    } else if marker == "PROTO"@ {
        Some(GemonType::Proto)
    } else {
        None
    }
}

/// Makes requests.
pub struct RequestBuilder;

impl RequestBuilder {
    /// The REST request of a configuration, with the authorization of the
    /// project where the request asks for it.
    pub fn build_rest_request(config: &GemonConfig, authorization: Option<String>) -> (out: Box<
        GemonRestRequest,
    >)
        ensures
            out@ == rest_request_of(config@, text_of(authorization)),
    {
        let mut headers = config.gemon_headers().duplicate();
        if config.gemon_secure() && !headers.contains_key(AUTHORIZATION) {
            if let Some(authorization) = authorization {
                headers.insert(String::from_str(AUTHORIZATION), authorization);
            }
        }
        Box::new(
            GemonRestRequestBuilder::new().set_gemon_method_type(
                config.gemon_method_type(),
            ).set_url(config.gemon_url()).set_headers(&headers).set_body(
                config.gemon_body(),
            ).set_form_data(config.gemon_form_data()).build(),
        )
    }

    /// The request kind that the marker of a saved request names; `None` for
    /// a text that is no marker.
    pub fn request_kind(request_type: &str) -> (out: Option<GemonType>)
        ensures
            out == kind_of_marker(request_type@),
    {
        let marker = chars_of(request_type);
        if is_text(&marker, "REST") {
            Some(GemonType::Rest)
        } else if is_text(&marker, "WEBSOCKET") {
            Some(GemonType::Websocket)
        } else if is_text(&marker, "PROTO") {
            Some(GemonType::Proto)
        } else {
            None
        }
    }

    /// The request of a saved request whose metadata was read as `content`,
    /// by the marker of its kind. Only REST requests can be built.
    pub fn build_from_string(content: GemonRestRequest, request_type: &str) -> (out: Box<
        GemonRestRequest,
    >)
        requires
            kind_of_marker(request_type@) == Some(GemonType::Rest),
        ensures
            out@ == content@,
    {
        Box::new(content)
    }

    /// The request of a configuration. Only REST requests can be built.
    pub fn build(config: &GemonConfig, authorization: Option<String>) -> (out: Box<GemonRestRequest>)
        requires
            config@.kind == GemonType::Rest,
        ensures
            out@ == rest_request_of(config@, text_of(authorization)),
    {
        RequestBuilder::build_rest_request(config, authorization)
    }
}

} // verus!
