//! HTTP-facing values: typed API errors and how a failed response is
//! classified, media attachments, and the request and response bodies of the
//! REST API.

use vstd::prelude::*;
use crate::text::{
    ascii_lowercase, chars_of, str_equal, string_from_chars, to_lower, trim, trimmed,
};

verus! {

/// The class of an API failure.
#[derive(Clone, Copy, Debug, PartialEq, Eq, Structural)]
pub enum ApiErrorKind {
    Unauthorized,
    Forbidden,
    NotFound,
    Server,
    Network,
    Timeout,
    Client,
    InvalidResponse,
    Unknown,
}

/// A failed API call.
#[derive(Clone, Debug, PartialEq, Eq)]
pub struct ApiError {
    status_code: Option<u16>,
    code: Option<String>,
    message: String,
    kind: ApiErrorKind,
}

pub struct ApiErrorModel {
    pub status_code: Option<u16>,
    pub code: Option<Seq<char>>,
    pub message: Seq<char>,
    pub kind: ApiErrorKind,
}

pub open spec fn opt_chars(o: Option<String>) -> Option<Seq<char>> {
    match o {
        Some(s) => Some(s@),
        None => None,
    }
}

impl View for ApiError {
    type V = ApiErrorModel;

    closed spec fn view(&self) -> ApiErrorModel {
        ApiErrorModel {
            status_code: self.status_code,
            code: opt_chars(self.code),
            message: self.message@,
            kind: self.kind,
        }
    }
}

/// The JSON body of an error response.
#[derive(Clone, Debug, PartialEq, Eq)]
pub struct ErrorPayload {
    pub error: Option<String>,
    pub message: Option<String>,
}

impl ApiError {
    pub fn new(status_code: Option<u16>, code: Option<String>, message: String, kind: ApiErrorKind) -> (e: Self)
        ensures
            e@ == (ApiErrorModel { status_code, code: opt_chars(code), message: message@, kind }),
    {
        ApiError { status_code, code, message, kind }
    }

    pub fn invalid_response(message: String) -> (e: Self)
        ensures
            e@ == (ApiErrorModel {
                status_code: None,
                code: None,
                message: message@,
                kind: ApiErrorKind::InvalidResponse,
            }),
    {
        Self::new(None, None, message, ApiErrorKind::InvalidResponse)
    }

    pub fn unauthorized(message: String, code: Option<String>) -> (e: Self)
        ensures
            e@ == (ApiErrorModel {
                status_code: Some(401u16),
                code: opt_chars(code),
                message: message@,
                kind: ApiErrorKind::Unauthorized,
            }),
    {
        Self::new(Some(401), code, message, ApiErrorKind::Unauthorized)
    }

    pub fn forbidden(message: String, code: Option<String>) -> (e: Self)
        ensures
            e@ == (ApiErrorModel {
                status_code: Some(403u16),
                code: opt_chars(code),
                message: message@,
                kind: ApiErrorKind::Forbidden,
            }),
    {
        Self::new(Some(403), code, message, ApiErrorKind::Forbidden)
    }

    pub fn not_found(message: String, code: Option<String>) -> (e: Self)
        ensures
            e@ == (ApiErrorModel {
                status_code: Some(404u16),
                code: opt_chars(code),
                message: message@,
                kind: ApiErrorKind::NotFound,
            }),
    {
        Self::new(Some(404), code, message, ApiErrorKind::NotFound)
    }

    pub fn server(status: u16, message: String, code: Option<String>) -> (e: Self)
        ensures
            e@ == (ApiErrorModel {
                status_code: Some(status),
                code: opt_chars(code),
                message: message@,
                kind: ApiErrorKind::Server,
            }),
    {
        Self::new(Some(status), code, message, ApiErrorKind::Server)
    }

    pub fn client(status: u16, message: String, code: Option<String>) -> (e: Self)
        ensures
            e@ == (ApiErrorModel {
                status_code: Some(status),
                code: opt_chars(code),
                message: message@,
                kind: ApiErrorKind::Client,
            }),
    {
        Self::new(Some(status), code, message, ApiErrorKind::Client)
    }

    pub fn network(message: String) -> (e: Self)
        ensures
            e@ == (ApiErrorModel {
                status_code: None,
                code: None,
                message: message@,
                kind: ApiErrorKind::Network,
            }),
    {
        Self::new(None, None, message, ApiErrorKind::Network)
    }

    pub fn timeout() -> (e: Self)
        ensures
            e@ == (ApiErrorModel {
                status_code: None,
                code: None,
                message: "Request timed out"@,
                kind: ApiErrorKind::Timeout,
            }),
    {
        Self::new(None, None, "Request timed out".to_string(), ApiErrorKind::Timeout)
    }

    pub fn unknown(message: String) -> (e: Self)
        ensures
            e@ == (ApiErrorModel {
                status_code: None,
                code: None,
                message: message@,
                kind: ApiErrorKind::Unknown,
            }),
    {
        Self::new(None, None, message, ApiErrorKind::Unknown)
    }

    pub fn status_code(&self) -> (s: Option<u16>)
        ensures
            s == self@.status_code,
    {
        self.status_code
    }

    pub fn code(&self) -> (c: Option<&str>)
        ensures
            match c {
                Some(s) => self@.code == Some(s@),
                None => self@.code is None,
            },
    {
        match &self.code {
            Some(c) => Some(c.as_str()),
            None => None,
        }
    }

    pub fn message(&self) -> (m: &str)
        ensures
            m@ == self@.message,
    {
        self.message.as_str()
    }

    pub fn kind(&self) -> (k: ApiErrorKind)
        ensures
            k == self@.kind,
    {
        self.kind
    }

    pub fn is_unauthorized(&self) -> (b: bool)
        ensures
            b == (self@.kind == ApiErrorKind::Unauthorized),
    {
        match self.kind {
            ApiErrorKind::Unauthorized => true,
            _ => false,
        }
    }
}

/// The decimal digits of a number.
pub open spec fn decimal_text(n: nat) -> Seq<char>
    decreases n,
{
    if n < 10 {
        seq![digit_char(n)]
    } else {
        decimal_text(n / 10).push(digit_char(n % 10))
    }
}

pub open spec fn digit_char(d: nat) -> char {
    (('0' as nat) + d) as char
}

fn push_decimal(n: u64, out: &mut Vec<char>)
    ensures
        final(out)@ == old(out)@ + decimal_text(n as nat),
    decreases n,
{
    if n >= 10 {
        push_decimal(n / 10, out);
    }
    let d: u8 = (n % 10) as u8;
    let c: char = (48u8 + d) as char;
    out.push(c);
    assert(final(out)@ =~= old(out)@ + decimal_text(n as nat));
}

/// A number in decimal.
pub fn decimal(n: u64) -> (s: String)
    ensures
        s@ == decimal_text(n as nat),
{
    let mut out: Vec<char> = Vec::new();
    push_decimal(n, &mut out);
    assert(out@ =~= decimal_text(n as nat));
    string_from_chars(&out)
}

/// Whether a status code means success (2xx).
pub open spec fn is_success(status: u16) -> bool {
    200 <= status <= 299
}

/// The error a failed response stands for. The machine-readable code is the
/// payload's `error`; the message is the payload's `message`, else its
/// `error`, else the body, else `HTTP <status>`. 401, 403 and 404 have kinds
/// of their own; 5xx are server errors; every other status is a client error.
pub open spec fn response_error(status: u16, body: Seq<char>, payload: Option<ErrorPayload>) -> ApiErrorModel {
    let code = match payload {
        Some(p) => opt_chars(p.error),
        None => None,
    };
    let fallback = if body.len() == 0 { "HTTP "@ + decimal_text(status as nat) } else { body };
    let message = match payload {
        Some(p) => match (p.message, p.error) {
            (Some(m), _) => m@,
            (None, Some(e)) => e@,
            (None, None) => fallback,
        },
        None => fallback,
    };
    let kind = if status == 401 {
        ApiErrorKind::Unauthorized
    } else if status == 403 {
        ApiErrorKind::Forbidden
    } else if status == 404 {
        ApiErrorKind::NotFound
    } else if 500 <= status <= 599 {
        ApiErrorKind::Server
    } else {
        ApiErrorKind::Client
    };
    ApiErrorModel { status_code: Some(status), code, message, kind }
}

/// How a failed response is classified, by status alone: 401 is
/// unauthorized, 403 forbidden, 404 not found, any 5xx a server error and
/// every other status a client error; the error keeps the status. The code is
/// the payload's `error`, and the payload's `message` is preferred for the
/// message, then its `error`.
pub proof fn law_response_error_classification(status: u16, body: Seq<char>, payload: Option<ErrorPayload>)
    ensures
        response_error(status, body, payload).status_code == Some(status),
        (response_error(status, body, payload).kind == ApiErrorKind::Unauthorized) <==> status == 401,
        (response_error(status, body, payload).kind == ApiErrorKind::Forbidden) <==> status == 403,
        (response_error(status, body, payload).kind == ApiErrorKind::NotFound) <==> status == 404,
        (response_error(status, body, payload).kind == ApiErrorKind::Server) <==> 500 <= status <= 599,
        (response_error(status, body, payload).kind == ApiErrorKind::Client) <==> (status != 401
            && status != 403 && status != 404 && !(500 <= status <= 599)),
        payload is None ==> response_error(status, body, payload).code is None,
        payload matches Some(p) ==> response_error(status, body, payload).code == opt_chars(p.error),
        payload matches Some(p) ==> (p.message is Some ==> response_error(status, body, payload).message
            == p.message->0@),
        payload matches Some(p) ==> (p.message is None && p.error is Some ==> response_error(
            status,
            body,
            payload,
        ).message == p.error->0@),
        (payload is None || (payload->0.message is None && payload->0.error is None)) && body.len() > 0
            ==> response_error(status, body, payload).message == body,
        (payload is None || (payload->0.message is None && payload->0.error is None)) && body.len() == 0
            ==> response_error(status, body, payload).message == "HTTP "@ + decimal_text(status as nat),
{
}

/// Checks a response status: success is `Ok`, anything else the error that
/// [`response_error`] describes. `payload` is the body parsed as an
/// [`ErrorPayload`], when it parses.
pub fn check_status(status: u16, body: String, payload: Option<ErrorPayload>) -> (r: Result<(), ApiError>)
    ensures
        match r {
            Ok(()) => is_success(status),
            Err(e) => !is_success(status) && e@ == response_error(status, body@, payload),
        },
{
    if 200 <= status && status <= 299 {
        return Ok(());
    }
    let code = match &payload {
        Some(p) => match &p.error {
            Some(e) => Some(e.clone()),
            None => None,
        },
        None => None,
    };
    let fallback = if body.as_str().is_empty() {
        let mut text = "HTTP ".to_string();
        let digits = decimal(status as u64);
        text.append(digits.as_str());
        text
    } else {
        body
    };
    let message = match payload {
        Some(p) => match (p.message, p.error) {
            (Some(m), _) => m,
            (None, Some(e)) => e,
            (None, None) => fallback,
        },
        None => fallback,
    };
    proof {
        reveal_strlit("HTTP ");
    }
    if status == 401 {
        Err(ApiError::unauthorized(message, code))
    } else if status == 403 {
        Err(ApiError::forbidden(message, code))
    } else if status == 404 {
        Err(ApiError::not_found(message, code))
    } else if 500 <= status && status <= 599 {
        Err(ApiError::server(status, message, code))
    } else {
        Err(ApiError::client(status, message, code))
    }
}

/// A file to upload.
#[derive(Clone, Debug, PartialEq, Eq)]
pub struct MediaAttachment {
    pub filename: String,
    pub content_type: String,
    pub bytes: Vec<u8>,
}

/// What follows the last `.` of a file name (the whole name when it has none).
pub open spec fn after_last_dot(s: Seq<char>) -> Seq<char>
    decreases s.len(),
{
    if s.len() == 0 {
        s
    } else if s.last() == '.' {
        Seq::empty()
    } else {
        after_last_dot(s.drop_last()).push(s.last())
    }
}

/// The content type of a lower-case file extension.
pub open spec fn content_type_of(ext: Seq<char>) -> Seq<char> {
    if ext == "jpg"@ || ext == "jpeg"@ {
        "image/jpeg"@
    } else if ext == "png"@ {
        "image/png"@
    } else if ext == "gif"@ {
        "image/gif"@
    } else if ext == "webp"@ {
        "image/webp"@
    } else if ext == "heic"@ {
        "image/heic"@
    } else if ext == "mp4"@ {
        "video/mp4"@
    } else if ext == "mov"@ {
        "video/quicktime"@
    } else if ext == "pdf"@ {
        "application/pdf"@
    } else {
        "application/octet-stream"@
    }
}

proof fn lemma_after_last_dot(s: Seq<char>, i: int)
    requires
        0 <= i <= s.len(),
        forall|k: int| i <= k < s.len() ==> #[trigger] s[k] != '.',
        i > 0 ==> s[i - 1] == '.',
    ensures
        after_last_dot(s) == s.subrange(i, s.len() as int),
    decreases s.len(),
{
    if s.len() == 0 {
    } else if i == s.len() {
        assert(s.subrange(i, s.len() as int) =~= Seq::<char>::empty());
    } else {
        lemma_after_last_dot(s.drop_last(), i);
        assert(s.subrange(i, s.len() as int) =~= s.drop_last().subrange(i, s.len() - 1).push(s.last()));
    }
}

impl MediaAttachment {
    pub fn new(filename: String, content_type: String, bytes: Vec<u8>) -> (m: Self)
        ensures
            m.filename@ == filename@,
            m.content_type@ == content_type@,
            m.bytes@ == bytes@,
    {
        MediaAttachment { filename, content_type, bytes }
    }

    /// The content type for a file name, from its extension (case-insensitive).
    pub fn inferred_content_type(filename: &str) -> (t: &'static str)
        ensures
            t@ == content_type_of(after_last_dot(filename@).map_values(|c: char| to_lower(c))),
    {
        let v = chars_of(filename);
        let mut i: usize = v.len();
        while i > 0 && v[i - 1] != '.'
            invariant
                i <= v@.len(),
                v@ == filename@,
                forall|k: int| i <= k < v@.len() ==> #[trigger] v@[k] != '.',
            decreases i,
        {
            i = i - 1;
        }
        let mut ext_chars: Vec<char> = Vec::new();
        let mut k: usize = i;
        while k < v.len()
            invariant
                i <= k <= v@.len(),
                ext_chars@ == v@.subrange(i as int, k as int),
            decreases v@.len() - k,
        {
            ext_chars.push(v[k]);
            proof {
                assert(ext_chars@ =~= v@.subrange(i as int, k + 1));
            }
            k = k + 1;
        }
        proof {
            lemma_after_last_dot(v@, i as int);
        }
        let ext_raw = string_from_chars(&ext_chars);
        let ext = ascii_lowercase(ext_raw.as_str());
        let e = ext.as_str();
        proof {
            reveal_strlit("jpg");
            reveal_strlit("jpeg");
            reveal_strlit("png");
            reveal_strlit("gif");
            reveal_strlit("webp");
            reveal_strlit("heic");
            reveal_strlit("mp4");
            reveal_strlit("mov");
            reveal_strlit("pdf");
        }
        if str_equal(e, "jpg") || str_equal(e, "jpeg") {
            "image/jpeg"
        } else if str_equal(e, "png") {
            "image/png"
        } else if str_equal(e, "gif") {
            "image/gif"
        } else if str_equal(e, "webp") {
            "image/webp"
        } else if str_equal(e, "heic") {
            "image/heic"
        } else if str_equal(e, "mp4") {
            "video/mp4"
        } else if str_equal(e, "mov") {
            "video/quicktime"
        } else if str_equal(e, "pdf") {
            "application/pdf"
        } else {
            "application/octet-stream"
        }
    }
}

#[derive(Clone, Debug, PartialEq, Eq)]
pub struct RequestOtpResponse {
    pub ok: Option<bool>,
    pub debug_code: Option<String>,
}

#[derive(Clone, Debug, PartialEq, Eq)]
pub struct RegisterDeviceRequest {
    pub session_token: String,
    pub device_name: String,
    pub ed25519_public_key: String,
}

#[derive(Clone, Debug, PartialEq, Eq)]
pub struct AuthTokens {
    pub access_token: String,
    pub refresh_token: String,
}

#[derive(Clone, Debug, PartialEq, Eq)]
pub struct RefreshTokenResponse {
    pub access_token: String,
}

#[derive(Clone, Copy, Debug, PartialEq, Eq, Structural)]
pub struct AddMemberResponse {
    pub added: bool,
}

#[derive(Clone, Copy, Debug, PartialEq, Eq, Structural)]
pub struct RemoveMemberResponse {
    pub removed: bool,
}

#[derive(Clone, Debug, PartialEq, Eq)]
pub struct UpdateMeRequest {
    pub display_name: Option<String>,
    pub avatar_url: Option<String>,
    pub username: Option<String>,
    pub discoverable_by_phone: Option<bool>,
}

#[derive(Clone, Debug, PartialEq, Eq)]
pub struct OneTimeKey {
    pub key_id: i64,
    pub key: String,
}

#[derive(Clone, Debug, PartialEq, Eq)]
pub struct UploadKeysRequest {
    pub identity_key: String,
    pub signed_prekey: String,
    pub signed_prekey_sig: String,
    pub one_time_prekeys: Vec<OneTimeKey>,
}

/// A path with its leading slashes removed, as it is joined to the base URL.
pub open spec fn relative_path_of(p: Seq<char>) -> Seq<char>
    decreases p.len(),
{
    if p.len() > 0 && p[0] == '/' {
        relative_path_of(p.skip(1))
    } else {
        p
    }
}

/// The part of an API path that is joined to the base URL.
pub fn relative_path(path: &str) -> (r: String)
    ensures
        r@ == relative_path_of(path@),
{
    let v = chars_of(path);
    let mut i: usize = 0;
    assert(v@.skip(0) =~= v@);
    while i < v.len() && v[i] == '/'
        invariant
            i <= v@.len(),
            v@ == path@,
            relative_path_of(path@) == relative_path_of(v@.skip(i as int)),
        decreases v@.len() - i,
    {
        proof {
            assert(v@.skip(i as int).skip(1) =~= v@.skip(i + 1));
        }
        i = i + 1;
    }
    let mut out: Vec<char> = Vec::new();
    let mut j: usize = i;
    while j < v.len()
        invariant
            i <= j <= v@.len(),
            out@ == v@.subrange(i as int, j as int),
        decreases v@.len() - j,
    {
        out.push(v[j]);
        proof {
            assert(out@ =~= v@.subrange(i as int, j + 1));
        }
        j = j + 1;
    }
    assert(out@ =~= v@.skip(i as int));
    string_from_chars(&out)
}

/// The query of a user search: the phone and the username, each only when
/// given and not empty.
pub fn search_user_query(phone: Option<&str>, username: Option<&str>) -> (q: Vec<(String, String)>)
    ensures
        q@.map_values(|p: (String, String)| (p.0@, p.1@)) == (match phone {
            Some(p) if p@.len() > 0 => seq![("phone"@, p@)],
            _ => Seq::<(Seq<char>, Seq<char>)>::empty(),
        }) + (match username {
            Some(u) if u@.len() > 0 => seq![("username"@, u@)],
            _ => Seq::<(Seq<char>, Seq<char>)>::empty(),
        }),
{
    proof {
        reveal_strlit("phone");
        reveal_strlit("username");
    }
    let mut q: Vec<(String, String)> = Vec::new();
    match phone {
        Some(p) => {
            if !p.is_empty() {
                q.push(("phone".to_string(), p.to_string()));
            }
        },
        None => {},
    }
    match username {
        Some(u) => {
            if !u.is_empty() {
                q.push(("username".to_string(), u.to_string()));
            }
        },
        None => {},
    }
    assert(q@.map_values(|p: (String, String)| (p.0@, p.1@)) =~= (match phone {
        Some(p) if p@.len() > 0 => seq![("phone"@, p@)],
        _ => Seq::<(Seq<char>, Seq<char>)>::empty(),
    }) + (match username {
        Some(u) if u@.len() > 0 => seq![("username"@, u@)],
        _ => Seq::<(Seq<char>, Seq<char>)>::empty(),
    }));
    q
}

/// A lookup that may find nothing: a not-found error becomes `None`.
pub fn found_or_none<T>(r: Result<T, ApiError>) -> (o: Result<Option<T>, ApiError>)
    ensures
        match r {
            Ok(v) => o == Ok::<Option<T>, ApiError>(Some(v)),
            Err(e) => if e@.status_code == Some(404u16) {
                o == Ok::<Option<T>, ApiError>(None)
            } else {
                o == Err::<Option<T>, ApiError>(e)
            },
        },
{
    match r {
        Ok(v) => Ok(Some(v)),
        Err(e) => {
            if e.status_code() == Some(404u16) {
                Ok(None)
            } else {
                Err(e)
            }
        },
    }
}

/// The name of a new conversation: a blank name is left out.
pub fn conversation_name(name: Option<String>) -> (r: Option<String>)
    ensures
        match name {
            Some(n) if trimmed(n@).len() > 0 => r == Some(n),
            _ => r is None,
        },
{
    match name {
        Some(n) => {
            let t = trim(n.as_str());
            if t.as_str().is_empty() {
                None
            } else {
                Some(n)
            }
        },
        None => None,
    }
}

} // verus!
