//! Closed status-code taxonomy: named codes, banded classification of the
//! numeric range 100-599, and conversion between numeric codes and named
//! statuses.

use vstd::prelude::*;

verus! {

/// The five HTTP status classes.
#[derive(Clone, Copy, Debug, PartialEq, Eq, Structural)]
pub enum Band {
    Informational,
    Successful,
    Redirection,
    ClientError,
    ServerError,
}

/// A status value: one of the well-known named codes, a banded fallback
/// carrying a numeric code and a generic band reason, or an arbitrary
/// code/reason pair passed through unchanged.
#[derive(Clone, Copy, Debug)]
pub enum StatusCode {
    Informational(u16, &'static str),
    Continue,
    SwitchingProtocols,
    Successful(u16, &'static str),
    OK,
    Created,
    Accepted,
    NonAuthoritativeInformation,
    NoContent,
    ResetContent,
    PartialContent,
    Redirection(u16, &'static str),
    MultipleChoices,
    MovedPermanently,
    Found,
    SeeOther,
    NotModified,
    UseProxy,
    TemporaryRedirect,
    ClientError(u16, &'static str),
    BadRequest,
    Unauthorized,
    PaymentRequired,
    Forbidden,
    NotFound,
    MethodNotAllowed,
    NotAcceptable,
    ProxyAuthenticationRequired,
    RequestTimeout,
    Conflict,
    Gone,
    LengthRequired,
    PreconditionFailed,
    RequestEntityTooLarge,
    RequestUriTooLong,
    UnsupportedMediaType,
    RequestedRangeNotSatisfiable,
    ExpectationFailed,
    ServerError(u16, &'static str),
    InternalServerError,
    NotImplemented,
    BadGateway,
    ServiceUnavailable,
    GatewayTimeout,
    HttpVersionNotSupported,
    Other(u16, &'static str),
}

/// Numeric code of a status.
pub open spec fn spec_code(s: StatusCode) -> int {
    match s {
        StatusCode::Informational(n, _) => n as int,
        StatusCode::Continue => 100,
        StatusCode::SwitchingProtocols => 101,
        StatusCode::Successful(n, _) => n as int,
        StatusCode::OK => 200,
        StatusCode::Created => 201,
        StatusCode::Accepted => 202,
        StatusCode::NonAuthoritativeInformation => 203,
        StatusCode::NoContent => 204,
        StatusCode::ResetContent => 205,
        StatusCode::PartialContent => 206,
        StatusCode::Redirection(n, _) => n as int,
        StatusCode::MultipleChoices => 300,
        StatusCode::MovedPermanently => 301,
        StatusCode::Found => 302,
        StatusCode::SeeOther => 303,
        StatusCode::NotModified => 304,
        StatusCode::UseProxy => 305,
        StatusCode::TemporaryRedirect => 307,
        StatusCode::ClientError(n, _) => n as int,
        StatusCode::BadRequest => 400,
        StatusCode::Unauthorized => 401,
        StatusCode::PaymentRequired => 402,
        StatusCode::Forbidden => 403,
        StatusCode::NotFound => 404,
        StatusCode::MethodNotAllowed => 405,
        StatusCode::NotAcceptable => 406,
        StatusCode::ProxyAuthenticationRequired => 407,
        StatusCode::RequestTimeout => 408,
        StatusCode::Conflict => 409,
        StatusCode::Gone => 410,
        StatusCode::LengthRequired => 411,
        StatusCode::PreconditionFailed => 412,
        StatusCode::RequestEntityTooLarge => 413,
        StatusCode::RequestUriTooLong => 414,
        StatusCode::UnsupportedMediaType => 415,
        StatusCode::RequestedRangeNotSatisfiable => 416,
        StatusCode::ExpectationFailed => 417,
        StatusCode::ServerError(n, _) => n as int,
        StatusCode::InternalServerError => 500,
        StatusCode::NotImplemented => 501,
        StatusCode::BadGateway => 502,
        StatusCode::ServiceUnavailable => 503,
        StatusCode::GatewayTimeout => 504,
        StatusCode::HttpVersionNotSupported => 505,
        StatusCode::Other(n, _) => n as int,
    }
}

/// Reason phrase of a status.
pub open spec fn spec_reason(s: StatusCode) -> Seq<char> {
    match s {
        StatusCode::Informational(_, r) => r@,
        StatusCode::Continue => "Continue"@,
        StatusCode::SwitchingProtocols => "Switching Protocols"@,
        StatusCode::Successful(_, r) => r@,
        StatusCode::OK => "OK"@,
        StatusCode::Created => "Created"@,
        StatusCode::Accepted => "Accepted"@,
        StatusCode::NonAuthoritativeInformation => "Non-Authoritative Information"@,
        StatusCode::NoContent => "No Content"@,
        StatusCode::ResetContent => "Reset Content"@,
        StatusCode::PartialContent => "Partial Content"@,
        StatusCode::Redirection(_, r) => r@,
        StatusCode::MultipleChoices => "Multiple Choices"@,
        StatusCode::MovedPermanently => "Moved Permanently"@,
        StatusCode::Found => "Found"@,
        StatusCode::SeeOther => "See Other"@,
        StatusCode::NotModified => "Not Modified"@,
        StatusCode::UseProxy => "Use Proxy"@,
        StatusCode::TemporaryRedirect => "Temporary Redirect"@,
        StatusCode::ClientError(_, r) => r@,
        StatusCode::BadRequest => "Bad Request"@,
        StatusCode::Unauthorized => "Unauthorized"@,
        StatusCode::PaymentRequired => "Payment Required"@,
        StatusCode::Forbidden => "Forbidden"@,
        StatusCode::NotFound => "Not Found"@,
        StatusCode::MethodNotAllowed => "Method Not Allowed"@,
        StatusCode::NotAcceptable => "Not Acceptable"@,
        StatusCode::ProxyAuthenticationRequired => "Proxy Authentication Required"@,
        StatusCode::RequestTimeout => "Request Timeout"@,
        StatusCode::Conflict => "Conflict"@,
        StatusCode::Gone => "Gone"@,
        StatusCode::LengthRequired => "Length Required"@,
        StatusCode::PreconditionFailed => "Precondition Failed"@,
        StatusCode::RequestEntityTooLarge => "Request Entity Too Large"@,
        StatusCode::RequestUriTooLong => "Request-URI Too Long"@,
        StatusCode::UnsupportedMediaType => "Unsupported Media Type"@,
        StatusCode::RequestedRangeNotSatisfiable => "Requested Range Not Satisfiable"@,
        StatusCode::ExpectationFailed => "Expectation Failed"@,
        StatusCode::ServerError(_, r) => r@,
        StatusCode::InternalServerError => "Internal Server Error"@,
        StatusCode::NotImplemented => "Not Implemented"@,
        StatusCode::BadGateway => "Bad Gateway"@,
        StatusCode::ServiceUnavailable => "Service Unavailable"@,
        StatusCode::GatewayTimeout => "Gateway Timeout"@,
        StatusCode::HttpVersionNotSupported => "HTTP Version Not Supported"@,
        StatusCode::Other(_, r) => r@,
    }
}

impl StatusCode {
    /// Numeric code and reason phrase of this status.
    pub fn to_code(&self) -> (r: (u16, &'static str))
        ensures
            r.0 as int == spec_code(*self),
            r.1@ == spec_reason(*self),
    {
        match *self {
            StatusCode::Informational(num, string) => (num, string),
            StatusCode::Successful(num, string) => (num, string),
            StatusCode::Redirection(num, string) => (num, string),
            StatusCode::ClientError(num, string) => (num, string),
            StatusCode::ServerError(num, string) => (num, string),
            StatusCode::Continue => (100, "Continue"),
            StatusCode::SwitchingProtocols => (101, "Switching Protocols"),
            StatusCode::OK => (200, "OK"),
            StatusCode::Created => (201, "Created"),
            StatusCode::Accepted => (202, "Accepted"),
            StatusCode::NonAuthoritativeInformation => (203, "Non-Authoritative Information"),
            StatusCode::NoContent => (204, "No Content"),
            StatusCode::ResetContent => (205, "Reset Content"),
            StatusCode::PartialContent => (206, "Partial Content"),
            StatusCode::MultipleChoices => (300, "Multiple Choices"),
            StatusCode::MovedPermanently => (301, "Moved Permanently"),
            StatusCode::Found => (302, "Found"),
            StatusCode::SeeOther => (303, "See Other"),
            StatusCode::NotModified => (304, "Not Modified"),
            StatusCode::UseProxy => (305, "Use Proxy"),
            StatusCode::TemporaryRedirect => (307, "Temporary Redirect"),
            StatusCode::BadRequest => (400, "Bad Request"),
            StatusCode::Unauthorized => (401, "Unauthorized"),
            StatusCode::PaymentRequired => (402, "Payment Required"),
            StatusCode::Forbidden => (403, "Forbidden"),
            StatusCode::NotFound => (404, "Not Found"),
            StatusCode::MethodNotAllowed => (405, "Method Not Allowed"),
            StatusCode::NotAcceptable => (406, "Not Acceptable"),
            StatusCode::ProxyAuthenticationRequired => (407, "Proxy Authentication Required"),
            StatusCode::RequestTimeout => (408, "Request Timeout"),
            StatusCode::Conflict => (409, "Conflict"),
            StatusCode::Gone => (410, "Gone"),
            StatusCode::LengthRequired => (411, "Length Required"),
            StatusCode::PreconditionFailed => (412, "Precondition Failed"),
            StatusCode::RequestEntityTooLarge => (413, "Request Entity Too Large"),
            StatusCode::RequestUriTooLong => (414, "Request-URI Too Long"),
            StatusCode::UnsupportedMediaType => (415, "Unsupported Media Type"),
            StatusCode::RequestedRangeNotSatisfiable => (416, "Requested Range Not Satisfiable"),
            StatusCode::ExpectationFailed => (417, "Expectation Failed"),
            StatusCode::InternalServerError => (500, "Internal Server Error"),
            StatusCode::NotImplemented => (501, "Not Implemented"),
            StatusCode::BadGateway => (502, "Bad Gateway"),
            StatusCode::ServiceUnavailable => (503, "Service Unavailable"),
            StatusCode::GatewayTimeout => (504, "Gateway Timeout"),
            StatusCode::HttpVersionNotSupported => (505, "HTTP Version Not Supported"),
            StatusCode::Other(n, s) => (n, s),
        }
    }
}

/// Band of a numeric code; codes outside 100-599 have none.
pub open spec fn spec_band(code: int) -> Result<Band, ()> {
    if 100 <= code <= 199 {
        Ok(Band::Informational)
    } else if 200 <= code <= 299 {
        Ok(Band::Successful)
    } else if 300 <= code <= 399 {
        Ok(Band::Redirection)
    } else if 400 <= code <= 499 {
        Ok(Band::ClientError)
    } else if 500 <= code <= 599 {
        Ok(Band::ServerError)
    } else {
        Err(())
    }
}

/// Classifies a numeric code into its band; a code outside 100-599 is
/// rejected as a construction error.
pub fn band(code: u16) -> (r: Result<Band, ()>)
    ensures
        r == spec_band(code as int),
{
    if 100 <= code && code <= 199 {
        Ok(Band::Informational)
    } else if 200 <= code && code <= 299 {
        Ok(Band::Successful)
    } else if 300 <= code && code <= 399 {
        Ok(Band::Redirection)
    } else if 400 <= code && code <= 499 {
        Ok(Band::ClientError)
    } else if 500 <= code && code <= 599 {
        Ok(Band::ServerError)
    } else {
        Err(())
    }
}

/// True of the numeric codes that have a well-known named status.
pub open spec fn is_named_code(code: int) -> bool {
    ||| code == 100
    ||| code == 101
    ||| 200 <= code <= 206
    ||| 300 <= code <= 305
    ||| code == 307
    ||| 400 <= code <= 417
    ||| 500 <= code <= 505
}

/// The named status for each numeric code in 100-599: the well-known named
/// variant where one exists, else the banded fallback carrying the code.
pub open spec fn spec_to_status(code: int) -> Result<StatusCode, ()> {
    if code == 100 {
        Ok(StatusCode::Continue)
    } else if code == 101 {
        Ok(StatusCode::SwitchingProtocols)
    } else if code == 200 {
        Ok(StatusCode::OK)
    } else if code == 201 {
        Ok(StatusCode::Created)
    } else if code == 202 {
        Ok(StatusCode::Accepted)
    } else if code == 203 {
        Ok(StatusCode::NonAuthoritativeInformation)
    } else if code == 204 {
        Ok(StatusCode::NoContent)
    } else if code == 205 {
        Ok(StatusCode::ResetContent)
    } else if code == 206 {
        Ok(StatusCode::PartialContent)
    } else if code == 300 {
        Ok(StatusCode::MultipleChoices)
    } else if code == 301 {
        Ok(StatusCode::MovedPermanently)
    } else if code == 302 {
        Ok(StatusCode::Found)
    } else if code == 303 {
        Ok(StatusCode::SeeOther)
    } else if code == 304 {
        Ok(StatusCode::NotModified)
    } else if code == 305 {
        Ok(StatusCode::UseProxy)
    } else if code == 307 {
        Ok(StatusCode::TemporaryRedirect)
    } else if code == 400 {
        Ok(StatusCode::BadRequest)
    } else if code == 401 {
        Ok(StatusCode::Unauthorized)
    } else if code == 402 {
        Ok(StatusCode::PaymentRequired)
    } else if code == 403 {
        Ok(StatusCode::Forbidden)
    } else if code == 404 {
        Ok(StatusCode::NotFound)
    } else if code == 405 {
        Ok(StatusCode::MethodNotAllowed)
    } else if code == 406 {
        Ok(StatusCode::NotAcceptable)
    } else if code == 407 {
        Ok(StatusCode::ProxyAuthenticationRequired)
    } else if code == 408 {
        Ok(StatusCode::RequestTimeout)
    } else if code == 409 {
        Ok(StatusCode::Conflict)
    } else if code == 410 {
        Ok(StatusCode::Gone)
    } else if code == 411 {
        Ok(StatusCode::LengthRequired)
    } else if code == 412 {
        Ok(StatusCode::PreconditionFailed)
    } else if code == 413 {
        Ok(StatusCode::RequestEntityTooLarge)
    } else if code == 414 {
        Ok(StatusCode::RequestUriTooLong)
    } else if code == 415 {
        Ok(StatusCode::UnsupportedMediaType)
    } else if code == 416 {
        Ok(StatusCode::RequestedRangeNotSatisfiable)
    } else if code == 417 {
        Ok(StatusCode::ExpectationFailed)
    } else if code == 500 {
        Ok(StatusCode::InternalServerError)
    } else if code == 501 {
        Ok(StatusCode::NotImplemented)
    } else if code == 502 {
        Ok(StatusCode::BadGateway)
    } else if code == 503 {
        Ok(StatusCode::ServiceUnavailable)
    } else if code == 504 {
        Ok(StatusCode::GatewayTimeout)
    } else if code == 505 {
        Ok(StatusCode::HttpVersionNotSupported)
    } else if 100 <= code <= 199 {
        Ok(StatusCode::Informational(code as u16, "Informational"))
    } else if 200 <= code <= 299 {
        Ok(StatusCode::Successful(code as u16, "Successful"))
    } else if 300 <= code <= 399 {
        Ok(StatusCode::Redirection(code as u16, "Redirection"))
    } else if 400 <= code <= 499 {
        Ok(StatusCode::ClientError(code as u16, "Client Error"))
    } else if 500 <= code <= 599 {
        Ok(StatusCode::ServerError(code as u16, "Server Error"))
    } else {
        Err(())
    }
}

/// Canonical reason phrase of each numeric code in 100-599: the well-known
/// phrase for a named code, else the generic band label.
pub open spec fn canonical_reason(code: int) -> Seq<char> {
    if code == 100 {
        "Continue"@
    } else if code == 101 {
        "Switching Protocols"@
    } else if code == 200 {
        "OK"@
    } else if code == 201 {
        "Created"@
    } else if code == 202 {
        "Accepted"@
    } else if code == 203 {
        "Non-Authoritative Information"@
    } else if code == 204 {
        "No Content"@
    } else if code == 205 {
        "Reset Content"@
    } else if code == 206 {
        "Partial Content"@
    } else if code == 300 {
        "Multiple Choices"@
    } else if code == 301 {
        "Moved Permanently"@
    } else if code == 302 {
        "Found"@
    } else if code == 303 {
        "See Other"@
    } else if code == 304 {
        "Not Modified"@
    } else if code == 305 {
        "Use Proxy"@
    } else if code == 307 {
        "Temporary Redirect"@
    } else if code == 400 {
        "Bad Request"@
    } else if code == 401 {
        "Unauthorized"@
    } else if code == 402 {
        "Payment Required"@
    } else if code == 403 {
        "Forbidden"@
    } else if code == 404 {
        "Not Found"@
    } else if code == 405 {
        "Method Not Allowed"@
    } else if code == 406 {
        "Not Acceptable"@
    } else if code == 407 {
        "Proxy Authentication Required"@
    } else if code == 408 {
        "Request Timeout"@
    } else if code == 409 {
        "Conflict"@
    } else if code == 410 {
        "Gone"@
    } else if code == 411 {
        "Length Required"@
    } else if code == 412 {
        "Precondition Failed"@
    } else if code == 413 {
        "Request Entity Too Large"@
    } else if code == 414 {
        "Request-URI Too Long"@
    } else if code == 415 {
        "Unsupported Media Type"@
    } else if code == 416 {
        "Requested Range Not Satisfiable"@
    } else if code == 417 {
        "Expectation Failed"@
    } else if code == 500 {
        "Internal Server Error"@
    } else if code == 501 {
        "Not Implemented"@
    } else if code == 502 {
        "Bad Gateway"@
    } else if code == 503 {
        "Service Unavailable"@
    } else if code == 504 {
        "Gateway Timeout"@
    } else if code == 505 {
        "HTTP Version Not Supported"@
    } else if 100 <= code <= 199 {
        "Informational"@
    } else if 200 <= code <= 299 {
        "Successful"@
    } else if 300 <= code <= 399 {
        "Redirection"@
    } else if 400 <= code <= 499 {
        "Client Error"@
    } else if 500 <= code <= 599 {
        "Server Error"@
    } else {
        Seq::<char>::empty()
    }
}

/// True of the banded fallback and pass-through statuses, which carry their
/// code and reason as data rather than naming a specific status.
pub open spec fn is_fallback(s: StatusCode) -> bool {
    ||| s matches StatusCode::Informational(_, _)
    ||| s matches StatusCode::Successful(_, _)
    ||| s matches StatusCode::Redirection(_, _)
    ||| s matches StatusCode::ClientError(_, _)
    ||| s matches StatusCode::ServerError(_, _)
    ||| s matches StatusCode::Other(_, _)
}

/// Law: every numeric code in 100-599 is classified, and into exactly the
/// band of its hundreds range, so each valid code lies in one band and only
/// one.
pub proof fn lemma_band_partition(code: int)
    requires
        100 <= code <= 599,
    ensures
        spec_band(code) is Ok,
        spec_band(code) == Ok::<Band, ()>(Band::Informational) <==> 100 <= code <= 199,
        spec_band(code) == Ok::<Band, ()>(Band::Successful) <==> 200 <= code <= 299,
        spec_band(code) == Ok::<Band, ()>(Band::Redirection) <==> 300 <= code <= 399,
        spec_band(code) == Ok::<Band, ()>(Band::ClientError) <==> 400 <= code <= 499,
        spec_band(code) == Ok::<Band, ()>(Band::ServerError) <==> 500 <= code <= 599,
{
}

/// Law: a numeric code converts to a status exactly when it lies in 100-599,
/// and the status then carries that same code and the canonical reason.
pub proof fn lemma_to_status_exact(code: int)
    ensures
        spec_to_status(code) is Ok <==> 100 <= code <= 599,
        spec_to_status(code) matches Ok(s) ==> spec_code(s) == code,
        spec_to_status(code) matches Ok(s) ==> spec_reason(s) == canonical_reason(code),
{
}

/// Law: round trip over the named table.  A code with a well-known named
/// status converts to that named (non-fallback) status, and converting back
/// yields the original code together with its canonical reason phrase.
pub proof fn lemma_named_round_trip(code: int)
    requires
        is_named_code(code),
    ensures
        spec_to_status(code) matches Ok(s) && !is_fallback(s) && spec_code(s) == code
            && spec_reason(s) == canonical_reason(code),
{
}

/// Law: a valid code with no well-known name converts to the banded
/// fallback of exactly its band, carrying the band's generic reason.
pub proof fn lemma_unnamed_code_takes_band_fallback(code: int)
    requires
        100 <= code <= 599,
        !is_named_code(code),
    ensures
        spec_to_status(code) matches Ok(s) && is_fallback(s) && (match spec_band(code) {
            Ok(Band::Informational) => s matches StatusCode::Informational(_, _)
                && spec_reason(s) == "Informational"@,
            Ok(Band::Successful) => s matches StatusCode::Successful(_, _) && spec_reason(s)
                == "Successful"@,
            Ok(Band::Redirection) => s matches StatusCode::Redirection(_, _) && spec_reason(s)
                == "Redirection"@,
            Ok(Band::ClientError) => s matches StatusCode::ClientError(_, _) && spec_reason(s)
                == "Client Error"@,
            Ok(Band::ServerError) => s matches StatusCode::ServerError(_, _) && spec_reason(s)
                == "Server Error"@,
            Err(()) => false,
        }),
{
}

/// Conversion of a value into a status, with the numeric conversions
/// rejecting codes outside 100-599.
pub trait ToStatusCode: Sized {
    /// The status this value stands for, if any.
    spec fn to_status_spec(&self) -> Result<StatusCode, ()>;

    /// Converts this value into a status, or reports a construction error.
    fn to_status(&self) -> (r: Result<StatusCode, ()>)
        ensures
            r == self.to_status_spec(),
    ;
}

impl ToStatusCode for StatusCode {
    open spec fn to_status_spec(&self) -> Result<StatusCode, ()> {
        Ok(*self)
    }

    fn to_status(&self) -> (r: Result<StatusCode, ()>) {
        Ok(*self)
    }
}

impl ToStatusCode for (u16, &'static str) {
    open spec fn to_status_spec(&self) -> Result<StatusCode, ()> {
        Ok(StatusCode::Other(self.0, self.1))
    }

    fn to_status(&self) -> (r: Result<StatusCode, ()>) {
        Ok(StatusCode::Other(self.0, self.1))
    }
}

impl ToStatusCode for u16 {
    open spec fn to_status_spec(&self) -> Result<StatusCode, ()> {
        spec_to_status(*self as int)
    }

    fn to_status(&self) -> (r: Result<StatusCode, ()>) {
        to_status_u16(*self)
    }
}

impl ToStatusCode for i32 {
    open spec fn to_status_spec(&self) -> Result<StatusCode, ()> {
        spec_to_status(*self as int)
    }

    fn to_status(&self) -> (r: Result<StatusCode, ()>) {
        if *self < 100 || *self > 599 {
            Err(())
        } else {
            to_status_u16(*self as u16)
        }
    }
}

impl ToStatusCode for () {
    open spec fn to_status_spec(&self) -> Result<StatusCode, ()> {
        Err(())
    }

    fn to_status(&self) -> (r: Result<StatusCode, ()>) {
        Err(())
    }
}

fn to_status_u16(code: u16) -> (r: Result<StatusCode, ()>)
    ensures
        r == spec_to_status(code as int),
{
    match code {
        100 => Ok(StatusCode::Continue),
        101 => Ok(StatusCode::SwitchingProtocols),
        200 => Ok(StatusCode::OK),
        201 => Ok(StatusCode::Created),
        202 => Ok(StatusCode::Accepted),
        203 => Ok(StatusCode::NonAuthoritativeInformation),
        204 => Ok(StatusCode::NoContent),
        205 => Ok(StatusCode::ResetContent),
        206 => Ok(StatusCode::PartialContent),
        300 => Ok(StatusCode::MultipleChoices),
        301 => Ok(StatusCode::MovedPermanently),
        302 => Ok(StatusCode::Found),
        303 => Ok(StatusCode::SeeOther),
        304 => Ok(StatusCode::NotModified),
        305 => Ok(StatusCode::UseProxy),
        307 => Ok(StatusCode::TemporaryRedirect),
        400 => Ok(StatusCode::BadRequest),
        401 => Ok(StatusCode::Unauthorized),
        402 => Ok(StatusCode::PaymentRequired),
        403 => Ok(StatusCode::Forbidden),
        404 => Ok(StatusCode::NotFound),
        405 => Ok(StatusCode::MethodNotAllowed),
        406 => Ok(StatusCode::NotAcceptable),
        407 => Ok(StatusCode::ProxyAuthenticationRequired),
        408 => Ok(StatusCode::RequestTimeout),
        409 => Ok(StatusCode::Conflict),
        410 => Ok(StatusCode::Gone),
        411 => Ok(StatusCode::LengthRequired),
        412 => Ok(StatusCode::PreconditionFailed),
        413 => Ok(StatusCode::RequestEntityTooLarge),
        414 => Ok(StatusCode::RequestUriTooLong),
        415 => Ok(StatusCode::UnsupportedMediaType),
        416 => Ok(StatusCode::RequestedRangeNotSatisfiable),
        417 => Ok(StatusCode::ExpectationFailed),
        500 => Ok(StatusCode::InternalServerError),
        501 => Ok(StatusCode::NotImplemented),
        502 => Ok(StatusCode::BadGateway),
        503 => Ok(StatusCode::ServiceUnavailable),
        504 => Ok(StatusCode::GatewayTimeout),
        505 => Ok(StatusCode::HttpVersionNotSupported),
        _ => {
            if 102 <= code && code <= 199 {
                Ok(StatusCode::Informational(code, "Informational"))
            } else if 207 <= code && code <= 299 {
                Ok(StatusCode::Successful(code, "Successful"))
            } else if code == 306 || (308 <= code && code <= 399) {
                Ok(StatusCode::Redirection(code, "Redirection"))
            } else if 418 <= code && code <= 499 {
                Ok(StatusCode::ClientError(code, "Client Error"))
            } else if 506 <= code && code <= 599 {
                Ok(StatusCode::ServerError(code, "Server Error"))
            } else {
                Err(())
            }
        },
    }
}

} // verus!
