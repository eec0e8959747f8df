//! Unary HTTP transport: one request per call. The status code and the
//! envelope's `status` field decide between a typed transport error, a call
//! error and a result to decode.
use vstd::prelude::*;
use crate::api::payload::ApiPayload;
use crate::api::resp::ApiRespData;
use crate::api::util::endpoint_of;
use crate::text::{decimal, push_decimal, same_text};

verus! {

/// Where the peer's HTTP endpoint listens.
#[derive(Clone, Debug, PartialEq, Eq, Hash)]
pub struct HttpConfig {
    pub host: String,
    pub port: u16,
    pub access_token: Option<String>,
}

impl Default for HttpConfig {
    fn default() -> (r: HttpConfig)
        ensures
            r.host@ == "127.0.0.1"@,
            r.port == 8080,
            r.access_token.is_none(),
    {
        HttpConfig { host: String::from_str("127.0.0.1"), port: 8080, access_token: None }
    }
}

pub open spec fn http_url_of(host: Seq<char>, port: u16, endpoint: Seq<char>) -> Seq<char> {
    "http://"@ + host + ":"@ + decimal(port as nat) + "/"@ + endpoint
}

impl HttpConfig {
    /// The URL a call is posted to.
    pub fn url_for(&self, payload: &ApiPayload) -> (r: String)
        ensures
            r@ == http_url_of(self.host@, self.port, endpoint_of(payload)),
    {
        let mut s = String::from_str("http://");
        s.append(self.host.as_str());
        s.append(":");
        push_decimal(&mut s, self.port as u64);
        s.append("/");
        let endpoint = payload.endpoint();
        s.append(endpoint.as_str());
        s
    }
}

/// A successful HTTP call: the envelope's status and return code, and its
/// data decoded by the call's response kind.
///
/// `status` is `ok` when the call succeeded, `async` when the peer only
/// queued it (its outcome is not known).
#[derive(Debug)]
pub struct HttpCallApiResp {
    pub status: String,
    pub retcode: String,
    pub data: ApiRespData,
}

/// Why an HTTP call produced no result.
#[derive(Clone, Debug, PartialEq, Eq)]
pub enum HttpCallApiError {
    /// 401: no credential was sent.
    Unauthorized,
    /// 403: the credential was wrong.
    InvaildToken,
    /// 406: the body's content type is not accepted.
    ContentTypeNotSupported,
    /// 400: the body is malformed.
    InvalidRequestBody,
    /// 404: no such endpoint.
    ApiNotFound,
    /// Any other status but 200.
    UnKnown,
    /// 200, but the envelope says `status: "failed"`; holds the raw body.
    CallFailed { raw: String },
    /// 200, but the data does not decode as the call's result; holds the raw body.
    Decode { raw: String },
    /// The request could not be sent or its answer not read.
    Transport { message: String },
}

/// The transport error an HTTP status other than 200 stands for.
pub open spec fn status_error(code: u16) -> HttpCallApiError {
    if code == 401 {
        HttpCallApiError::Unauthorized
    } else if code == 403 {
        HttpCallApiError::InvaildToken
    } else if code == 406 {
        HttpCallApiError::ContentTypeNotSupported
    } else if code == 400 {
        HttpCallApiError::InvalidRequestBody
    } else if code == 404 {
        HttpCallApiError::ApiNotFound
    } else {
        HttpCallApiError::UnKnown
    }
}

impl HttpCallApiError {
    /// The transport error for an HTTP status other than 200.
    pub fn from_status(code: u16) -> (r: HttpCallApiError)
        ensures
            r == status_error(code),
    {
        if code == 401 {
            HttpCallApiError::Unauthorized
        } else if code == 403 {
            HttpCallApiError::InvaildToken
        } else if code == 406 {
            HttpCallApiError::ContentTypeNotSupported
        } else if code == 400 {
            HttpCallApiError::InvalidRequestBody
        } else if code == 404 {
            HttpCallApiError::ApiNotFound
        } else {
            HttpCallApiError::UnKnown
        }
    }
}

/// What to do with the body of a 200 answer.
#[derive(Clone, Copy, Debug, PartialEq, Eq)]
pub enum HttpReply {
    /// `status: "ok"`: decode the data by the call's response kind.
    Decode,
    /// Any other status but `failed` (the call was queued): there is no data.
    NoData,
}

/// The decision for an answer with HTTP status `code` whose envelope carries
/// `status` (`None` when it has no string there), `raw` being the whole body.
/// A missing status counts as failed.
pub open spec fn reply_plan(code: u16, status: Option<String>, raw: String) -> Result<
    HttpReply,
    HttpCallApiError,
> {
    if code != 200 {
        Err(status_error(code))
    } else if status.is_none() || status.unwrap()@ == "failed"@ {
        Err(HttpCallApiError::CallFailed { raw })
    } else if status.unwrap()@ == "ok"@ {
        Ok(HttpReply::Decode)
    } else {
        Ok(HttpReply::NoData)
    }
}

/// Decides what an HTTP answer means; see `reply_plan`.
pub fn plan_reply(code: u16, status: Option<String>, raw: String) -> (r: Result<
    HttpReply,
    HttpCallApiError,
>)
    ensures
        r == reply_plan(code, status, raw),
{
    if code != 200 {
        return Err(HttpCallApiError::from_status(code));
    }
    match status {
        None => Err(HttpCallApiError::CallFailed { raw }),
        Some(s) => {
            if same_text(s.as_str(), "failed") {
                Err(HttpCallApiError::CallFailed { raw })
            } else if same_text(s.as_str(), "ok") {
                Ok(HttpReply::Decode)
            } else {
                Ok(HttpReply::NoData)
            }
        },
    }
}

/// The result of an answer whose plan was carried out: its data as decoded
/// (`None` when it did not decode).
pub fn finish_reply(
    status: String,
    retcode: String,
    decoded: Option<ApiRespData>,
    raw: String,
) -> (r: Result<HttpCallApiResp, HttpCallApiError>)
    ensures
        match decoded {
            Some(data) => r == Ok::<HttpCallApiResp, HttpCallApiError>(
                HttpCallApiResp { status, retcode, data },
            ),
            None => r == Err::<HttpCallApiResp, HttpCallApiError>(
                HttpCallApiError::Decode { raw },
            ),
        },
{
    match decoded {
        Some(data) => Ok(HttpCallApiResp { status, retcode, data }),
        None => Err(HttpCallApiError::Decode { raw }),
    }
}

/// The HTTP statuses 401, 403, 406, 400 and 404 each map to their own named
/// transport error, and a 200 whose envelope says `failed` maps to a call
/// error that no HTTP status maps to.
pub proof fn lemma_http_error_mapping(status: String, raw: String, code: u16)
    requires
        status@ == "failed"@,
    ensures
        reply_plan(401, Some(status), raw) == Err::<HttpReply, HttpCallApiError>(
            HttpCallApiError::Unauthorized,
        ),
        reply_plan(403, Some(status), raw) == Err::<HttpReply, HttpCallApiError>(
            HttpCallApiError::InvaildToken,
        ),
        reply_plan(406, Some(status), raw) == Err::<HttpReply, HttpCallApiError>(
            HttpCallApiError::ContentTypeNotSupported,
        ),
        reply_plan(400, Some(status), raw) == Err::<HttpReply, HttpCallApiError>(
            HttpCallApiError::InvalidRequestBody,
        ),
        reply_plan(404, Some(status), raw) == Err::<HttpReply, HttpCallApiError>(
            HttpCallApiError::ApiNotFound,
        ),
        reply_plan(200, Some(status), raw) == Err::<HttpReply, HttpCallApiError>(
            HttpCallApiError::CallFailed { raw },
        ),
        reply_plan(200, Some(status), raw) != Err::<HttpReply, HttpCallApiError>(
            status_error(code),
        ),
{
}

} // verus!
