use vstd::prelude::*;

verus! {

use crate::json::JsonValue;
use crate::v1beta::request::{Request, sp_request_json};
use crate::v1beta::response::{Response, ResponseV, sp_response_from, response_from_json};

/// What goes wrong around a single-shot request.
#[derive(Debug, Clone, PartialEq, Eq)]
pub enum Error {
    /// The service answered with a failure status; the body text is kept.
    ApiError(String),
    /// The request could not be carried over HTTP.
    Http(String),
    /// The service's answer could not be read as a response.
    Json(String),
}

/// Client for the single-shot generation endpoints: the credential, the model
/// to address, and the base the model path is appended to.
#[derive(Debug, Clone)]
pub struct Client {
    pub api_key: String,
    pub model: String,
    pub api_base: String,
}

/// The text a request is sent as.
pub open spec fn sp_request_body(r: Request) -> Seq<char> {
    crate::json::jtext(sp_request_json(r))
}

/// Whether the prefix every event line must carry stands at the start.
pub open spec fn sp_has_sse_prefix(t: Seq<char>) -> bool {
    t.len() >= 6 && t.subrange(0, 6) == "data: "@
}

impl Client {
    /// A client for the given credential and model, addressing the public
    /// endpoint until another base is set.
    pub fn new(api_key: &str, model: &str) -> (r: Client)
        ensures
            r.api_key@ == api_key@,
            r.model@ == model@,
            r.api_base@ == crate::v1beta::API_BASE@,
    {
        Client {
            api_key: api_key.to_owned(),
            model: model.to_owned(),
            api_base: crate::v1beta::API_BASE.to_owned(),
        }
    }

    /// The same client addressing another base.
    pub fn with_api_base(self, api_base: String) -> (r: Client)
        ensures
            r == (Client { api_base, ..self }),
    {
        Client { api_base, ..self }
    }

    /// The URL one single-shot generation request is posted to.
    pub fn generate_url(&self) -> (r: String)
        ensures
            r@ == self.api_base@ + "/"@ + self.model@ + ":generateContent?key="@ + self.api_key@,
    {
        let mut u = self.api_base.clone();
        u.append("/");
        u.append(self.model.as_str());
        u.append(":generateContent?key=");
        u.append(self.api_key.as_str());
        u
    }

    /// The URL one streaming generation request is posted to.
    pub fn stream_url(&self) -> (r: String)
        ensures
            r@ == self.api_base@ + "/"@ + self.model@ + ":streamGenerateContent?alt=sse&key="@
                + self.api_key@,
    {
        let mut u = self.api_base.clone();
        u.append("/");
        u.append(self.model.as_str());
        u.append(":streamGenerateContent?alt=sse&key=");
        u.append(self.api_key.as_str());
        u
    }

    /// The JSON body a request is posted with.
    pub fn request_body(&self, request: &Request) -> (r: String)
        ensures
            r@ == sp_request_body(*request),
    {
        request.to_json().to_text()
    }

    /// Reads the service's answer: a failure status keeps the body as the
    /// service's own words; a success body must parse as a response.
    pub fn response_from_body(&self, status_ok: bool, body: &str) -> (r: Result<Response, Error>)
        ensures
            !status_ok ==> (r matches Err(e) && e matches Error::ApiError(s) && s@ == body@),
            status_ok ==> match crate::json::sp_parse_text(body@) {
                Some(v) => match sp_response_from(v) {
                    Some(m) => r matches Ok(x) && x@ == m,
                    None => r matches Err(e) && e is Json,
                },
                None => r matches Err(e) && e is Json,
            },
    {
        if !status_ok {
            return Err(Error::ApiError(body.to_owned()));
        }
        match JsonValue::parse(body) {
            Some(v) => match response_from_json(&v) {
                Some(resp) => Ok(resp),
                None => Err(Error::Json("response has an unexpected shape".to_owned())),
            },
            None => Err(Error::Json("response is not valid JSON".to_owned())),
        }
    }

    /// Reads one server-sent-event chunk of a streaming answer. The chunk
    /// must open with the event prefix; what follows must parse as a
    /// response. Whitespace after the payload is insignificant.
    pub fn sse_chunk_to_response(&self, text: &str) -> (r: Result<Response, Error>)
        ensures
            !sp_has_sse_prefix(text@) ==> (r matches Err(e) && e is ApiError),
            sp_has_sse_prefix(text@) ==> match crate::json::sp_parse_text(
                text@.subrange(6, text@.len() as int),
            ) {
                Some(v) => match sp_response_from(v) {
                    Some(m) => r matches Ok(x) && x@ == m,
                    None => r matches Err(e) && e is Json,
                },
                None => r matches Err(e) && e is Json,
            },
    {
        let cs = crate::json::chars_of_str(text);
        let prefix_ok = cs.len() >= 6 && {
            let ok = cs[0] == 'd' && cs[1] == 'a' && cs[2] == 't' && cs[3] == 'a' && cs[4] == ':'
                && cs[5] == ' ';
            ok
        };
        proof {
            reveal_strlit("data: ");
            if cs@.len() >= 6 {
                let pre = cs@.subrange(0, 6);
                assert(pre[0] == cs@[0] && pre[1] == cs@[1] && pre[2] == cs@[2] && pre[3]
                    == cs@[3] && pre[4] == cs@[4] && pre[5] == cs@[5]);
                if prefix_ok {
                    assert(pre =~= "data: "@);
                } else {
                    if pre == "data: "@ {
                        assert(false);
                    }
                }
            }
        }
        if !prefix_ok {
            let mut m = "Invalid SSE data format, missing 'data: ' prefix. Full text: '"
                .to_owned();
            m.append(text);
            m.append("'");
            return Err(Error::ApiError(m));
        }
        let rest = crate::json::chars_range_to_str(&cs, 6, cs.len());
        match JsonValue::parse(rest.as_str()) {
            Some(v) => match response_from_json(&v) {
                Some(resp) => Ok(resp),
                None => Err(Error::Json("response has an unexpected shape".to_owned())),
            },
            None => Err(Error::Json("response is not valid JSON".to_owned())),
        }
    }
}

} // verus!
