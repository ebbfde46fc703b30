//! The REST request: its fields, the split into what is saved, and what is
//! handed to the transport.

use crate::config::types::GemonMethodType;
use crate::constants::{ACCEPT, CONTENT_TYPE, DEFAULT_ACCEPT, DEFAULT_CONTENT_TYPE};
use crate::dict::{
    bindings, distinct_pairs, has_pair, insert_pair, lemma_insert_pair, pair_at, pair_index, Dict,
};
use crate::text::{copy_text, text_of};
use vstd::prelude::*;
use vstd::string::StringExecFns;

verus! {

/// The mathematical value of a [`GemonRestRequestBuilder`].
pub struct RestBuilderView {
    pub method: Option<GemonMethodType>,
    pub url: Option<Seq<char>>,
    pub headers: Map<Seq<char>, Seq<char>>,
    pub body: Option<Seq<char>>,
    pub form_data: Map<Seq<char>, Seq<char>>,
}

/// The mathematical value of a [`GemonRestRequest`].
pub struct RestRequestView {
    pub method: GemonMethodType,
    pub uri: Seq<char>,
    pub headers: Map<Seq<char>, Seq<char>>,
    pub body: Option<Seq<char>>,
    pub form_data: Map<Seq<char>, Seq<char>>,
}

/// What the transport sends as the body of a request.
pub enum PayloadView {
    /// The form-data pairs, form-encoded.
    Form(Map<Seq<char>, Seq<char>>),
    /// The raw body text.
    Text(Seq<char>),
    /// No body.
    Empty,
}

impl RestRequestView {
    /// What is saved as the metadata of the request: the request without
    /// its body.
    pub open spec fn metadata(self) -> RestRequestView {
        RestRequestView { body: None, ..self }
    }

    /// What is saved as the body text: the body, or the empty text.
    pub open spec fn body_text(self) -> Seq<char> {
        match self.body {
            Some(b) => b,
            None => Seq::empty(),
        }
    }

    /// The request with another body.
    pub open spec fn with_body(self, body: Option<Seq<char>>) -> RestRequestView {
        RestRequestView { body, ..self }
    }

    /// The headers that are sent: the defaults for content type and accepted
    /// type, overridden by the headers of the request.
    pub open spec fn outgoing_headers(self) -> Map<Seq<char>, Seq<char>> {
        Map::<Seq<char>, Seq<char>>::empty().insert(CONTENT_TYPE@, DEFAULT_CONTENT_TYPE@).insert(
            ACCEPT@,
            DEFAULT_ACCEPT@,
        ).union_prefer_right(self.headers)
    }

    /// The body that is sent: form data takes precedence over the body text
    /// as soon as there is one pair.
    pub open spec fn payload(self) -> PayloadView {
        if self.form_data.len() > 0 {
            PayloadView::Form(self.form_data)
        } else {
            match self.body {
                Some(b) => PayloadView::Text(b),
                None => PayloadView::Empty,
            }
        }
    }
}

/// Collects the fields of a REST request.
#[derive(Debug)]
pub struct GemonRestRequestBuilder {
    gemon_method_type: Option<GemonMethodType>,
    url: Option<String>,
    headers: Dict<String>,
    body: Option<String>,
    form_data: Dict<String>,
}

impl View for GemonRestRequestBuilder {
    type V = RestBuilderView;

    closed spec fn view(&self) -> RestBuilderView {
        RestBuilderView {
            method: self.gemon_method_type,
            url: text_of(self.url),
            headers: self.headers@,
            body: text_of(self.body),
            form_data: self.form_data@,
        }
    }
}

impl GemonRestRequestBuilder {
    /// A builder with nothing set.
    pub fn new() -> (out: GemonRestRequestBuilder)
        ensures
            out@ == (RestBuilderView {
                method: None,
                url: None,
                headers: Map::empty(),
                body: None,
                form_data: Map::empty(),
            }),
    {
        GemonRestRequestBuilder {
            gemon_method_type: None,
            url: None,
            headers: Dict::new(),
            body: None,
            form_data: Dict::new(),
        }
    }

    /// Sets the method.
    pub fn set_gemon_method_type(self, gemon_method_type: GemonMethodType) -> (out:
        GemonRestRequestBuilder)
        ensures
            out@ == (RestBuilderView { method: Some(gemon_method_type), ..self@ }),
    {
        GemonRestRequestBuilder { gemon_method_type: Some(gemon_method_type), ..self }
    }

    /// Sets the URL.
    pub fn set_url(self, url: String) -> (out: GemonRestRequestBuilder)
        ensures
            out@ == (RestBuilderView { url: Some(url@), ..self@ }),
    {
        GemonRestRequestBuilder { url: Some(url), ..self }
    }

    /// Replaces the headers by a copy of the given ones.
    pub fn set_headers(self, headers: &Dict<String>) -> (out: GemonRestRequestBuilder)
        ensures
            out@ == (RestBuilderView { headers: headers@, ..self@ }),
    {
        GemonRestRequestBuilder { headers: headers.duplicate(), ..self }
    }

    /// Sets or clears the body.
    pub fn set_body(self, body: Option<String>) -> (out: GemonRestRequestBuilder)
        ensures
            out@ == (RestBuilderView { body: text_of(body), ..self@ }),
    {
        GemonRestRequestBuilder { body, ..self }
    }

    /// Replaces the form data by a copy of the given pairs.
    pub fn set_form_data(self, form_data: &Dict<String>) -> (out: GemonRestRequestBuilder)
        ensures
            out@ == (RestBuilderView { form_data: form_data@, ..self@ }),
    {
        GemonRestRequestBuilder { form_data: form_data.duplicate(), ..self }
    }

    /// Whether method and URL are set, so that the request can be built.
    pub fn is_complete(&self) -> (out: bool)
        ensures
            out == (self@.method is Some && self@.url is Some),
    {
        self.gemon_method_type.is_some() && self.url.is_some()
    }

    /// The request. Method and URL must have been set.
    pub fn build(&self) -> (out: GemonRestRequest)
        requires
            self@.method is Some,
            self@.url is Some,
        ensures
            out@ == (RestRequestView {
                method: self@.method.unwrap(),
                uri: self@.url.unwrap(),
                headers: self@.headers,
                body: self@.body,
                form_data: self@.form_data,
            }),
    {
        let uri = match &self.url {
            Some(u) => u.clone(),
            None => String::new(),
        };
        let gemon_method_type = match self.gemon_method_type {
            Some(m) => m,
            None => GemonMethodType::Get,
        };
        GemonRestRequest {
            gemon_method_type,
            uri,
            headers: self.headers.duplicate(),
            body: copy_text(&self.body),
            form_data: self.form_data.duplicate(),
        }
    }
}

/// A REST request.
#[derive(Debug)]
pub struct GemonRestRequest {
    gemon_method_type: GemonMethodType,
    uri: String,
    headers: Dict<String>,
    body: Option<String>,
    form_data: Dict<String>,
}

impl View for GemonRestRequest {
    type V = RestRequestView;

    closed spec fn view(&self) -> RestRequestView {
        RestRequestView {
            method: self.gemon_method_type,
            uri: self.uri@,
            headers: self.headers@,
            body: text_of(self.body),
            form_data: self.form_data@,
        }
    }
}

/// What the transport sends as the body of a request.
#[derive(Debug)]
pub enum Payload {
    /// The form-data pairs, to be form-encoded.
    Form(Dict<String>),
    /// The raw body text.
    Text(String),
    /// No body.
    Empty,
}

impl View for Payload {
    type V = PayloadView;

    open spec fn view(&self) -> PayloadView {
        match self {
            Payload::Form(pairs) => PayloadView::Form(pairs@),
            Payload::Text(text) => PayloadView::Text(text@),
            Payload::Empty => PayloadView::Empty,
        }
    }
}

impl GemonRestRequest {
    /// A request with the given fields.
    pub fn from_parts(
        gemon_method_type: GemonMethodType,
        uri: String,
        headers: Dict<String>,
        body: Option<String>,
        form_data: Dict<String>,
    ) -> (out: GemonRestRequest)
        ensures
            out@ == (RestRequestView {
                method: gemon_method_type,
                uri: uri@,
                headers: headers@,
                body: text_of(body),
                form_data: form_data@,
            }),
    {
        GemonRestRequest { gemon_method_type, uri, headers, body, form_data }
    }

    /// The method.
    pub fn gemon_method_type(&self) -> (out: GemonMethodType)
        ensures
            out == self@.method,
    {
        self.gemon_method_type
    }

    /// The URI.
    pub fn uri(&self) -> (out: &String)
        ensures
            out@ == self@.uri,
    {
        &self.uri
    }

    /// The headers of the request itself.
    pub fn headers(&self) -> (out: &Dict<String>)
        ensures
            out@ == self@.headers,
    {
        &self.headers
    }

    /// The body.
    pub fn body(&self) -> (out: &Option<String>)
        ensures
            text_of(*out) == self@.body,
    {
        &self.body
    }

    /// The form-data pairs.
    pub fn form_data(&self) -> (out: &Dict<String>)
        ensures
            out@ == self@.form_data,
    {
        &self.form_data
    }

    /// A copy of the request.
    pub fn duplicate(&self) -> (out: GemonRestRequest)
        ensures
            out@ == self@,
    {
        GemonRestRequest {
            gemon_method_type: self.gemon_method_type,
            uri: self.uri.clone(),
            headers: self.headers.duplicate(),
            body: copy_text(&self.body),
            form_data: self.form_data.duplicate(),
        }
    }

    /// What is saved as the metadata of the request: a copy without the
    /// body.
    pub fn metadata(&self) -> (out: GemonRestRequest)
        ensures
            out@ == self@.metadata(),
    {
        GemonRestRequest {
            gemon_method_type: self.gemon_method_type,
            uri: self.uri.clone(),
            headers: self.headers.duplicate(),
            body: None,
            form_data: self.form_data.duplicate(),
        }
    }

    /// What is saved as the body text: the body, or the empty text.
    pub fn json_body(&self) -> (out: String)
        ensures
            out@ == self@.body_text(),
    {
        match &self.body {
            Some(b) => b.clone(),
            None => String::new(),
        }
    }

    /// The marker of the request kind.
    pub fn request_type(&self) -> (out: String)
        ensures
            out@ == "REST"@,
    {
        String::from_str("REST")
    }

    /// Sets or clears the body.
    pub fn set_body(&mut self, body: Option<String>)
        ensures
            final(self)@ == old(self)@.with_body(text_of(body)),
    {
        self.body = body;
    }

    /// The headers to send: the defaults, overridden by the headers of the
    /// request.
    pub fn outgoing_headers(&self) -> (out: Dict<String>)
        ensures
            out@ == self@.outgoing_headers(),
    {
        let mut out: Dict<String> = Dict::new();
        out.insert(String::from_str(CONTENT_TYPE), String::from_str(DEFAULT_CONTENT_TYPE));
        out.insert(String::from_str(ACCEPT), String::from_str(DEFAULT_ACCEPT));
        let ghost defaults = out@;
        let n = self.headers.len();
        let mut i: usize = 0;
        assert(out@ =~= defaults.union_prefer_right(bindings(self.headers.pairs().take(0))));
        while i < n
            invariant
                i <= n,
                n == self.headers.pairs().len(),
                distinct_pairs(self.headers.pairs()),
                out@ == defaults.union_prefer_right(bindings(self.headers.pairs().take(i as int))),
            decreases n - i,
        {
            let key = self.headers.key_at(i).clone();
            let value = self.headers.value_at(i).clone();
            proof {
                let p = self.headers.pairs().take(i as int);
                let q = self.headers.pairs().take(i + 1);
                if has_pair(p, key@) {
                    let j = pair_index(p, key@);
                    assert(pair_at(p, key@, j));
                    assert(self.headers.pairs()[j].0 != self.headers.pairs()[i as int].0);
                }
                assert(q =~= insert_pair(p, key@, value@));
                lemma_insert_pair(p, key@, value@);
                assert(defaults.union_prefer_right(bindings(p)).insert(key@, value@)
                    =~= defaults.union_prefer_right(bindings(q)));
            }
            out.insert(key, value);
            i += 1;
        }
        assert(self.headers.pairs().take(n as int) =~= self.headers.pairs());
        out
    }

    /// The body to send: the form data if there is any, else the body text
    /// if there is one.
    pub fn payload(&self) -> (out: Payload)
        ensures
            out@ == self@.payload(),
    {
        let n = self.form_data.len();
        if n > 0 {
            Payload::Form(self.form_data.duplicate())
        } else {
            match &self.body {
                Some(b) => Payload::Text(b.clone()),
                None => Payload::Empty,
            }
        }
    }
}

/// Saving a request and loading it again gives the request back: its
/// metadata with the saved body text put in is the request itself, given
/// that it has a body. A request without a body comes back with the empty
/// text as its body and is otherwise the same.
pub proof fn lemma_save_then_load(r: RestRequestView)
    ensures
        r.body is Some ==> r.metadata().with_body(Some(r.body_text())) == r,
        r.body is None ==> r.metadata().with_body(Some(r.body_text())) == r.with_body(
            Some(Seq::empty()),
        ),
        r.metadata().with_body(None) == r.metadata(),
{
}

} // verus!
