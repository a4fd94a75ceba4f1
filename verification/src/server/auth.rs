//! Phone sign-in on the server: request bodies, phone and code validation,
//! one-time codes, device keys and token revocation.

use vstd::prelude::*;
use rand::Rng;
use crate::server::failure::{error_body, failure, ErrorBody, HttpFailure};
use crate::server::codec::{base64_standard_decode, decode_base64};
use crate::text::{chars_of, str_equal, string_from_chars, trim, trimmed};

verus! {

#[derive(Clone, Debug, PartialEq, Eq)]
pub struct RequestOtpRequest {
    pub phone: String,
}

#[derive(Clone, Debug, PartialEq, Eq)]
pub struct VerifyOtpRequest {
    pub phone: String,
    pub code: String,
}

#[derive(Clone, Debug, PartialEq, Eq)]
pub struct RegisterDeviceRequest {
    pub session_token: String,
    pub device_name: String,
    pub ed25519_public_key: String,
}

#[derive(Clone, Debug, PartialEq, Eq)]
pub struct RefreshTokenRequest {
    pub refresh_token: String,
}

/// The number of bytes a character takes in UTF-8.
pub open spec fn utf8_width(c: char) -> nat {
    if (c as u32) < 0x80 {
        1
    } else if (c as u32) < 0x800 {
        2
    } else if (c as u32) < 0x10000 {
        3
    } else {
        4
    }
}

/// The number of bytes a text takes in UTF-8 (`str::len`).
pub open spec fn utf8_len(s: Seq<char>) -> nat
    decreases s.len(),
{
    if s.len() == 0 {
        0
    } else {
        utf8_len(s.drop_last()) + utf8_width(s.last())
    }
}

fn char_width(c: char) -> (w: usize)
    ensures
        w == utf8_width(c),
{
    let code = c as u32;
    if code < 0x80 {
        1
    } else if code < 0x800 {
        2
    } else if code < 0x10000 {
        3
    } else {
        4
    }
}

/// The UTF-8 length of a text, saturating at `usize::MAX`.
fn byte_len(s: &str) -> (n: usize)
    ensures
        n == (if utf8_len(s@) <= usize::MAX { utf8_len(s@) } else { usize::MAX as nat }),
{
    let v = chars_of(s);
    let mut n: usize = 0;
    let mut i: usize = 0;
    while i < v.len()
        invariant
            i <= v@.len(),
            v@ == s@,
            n == (if utf8_len(v@.take(i as int)) <= usize::MAX { utf8_len(v@.take(i as int)) } else { usize::MAX as nat }),
        decreases v@.len() - i,
    {
        let w = char_width(v[i]);
        proof {
            assert(v@.take(i + 1).drop_last() == v@.take(i as int));
        }
        if n > usize::MAX - w {
            n = usize::MAX;
        } else {
            n = n + w;
        }
        i = i + 1;
    }
    assert(v@.take(i as int) == v@);
    n
}

/// A phone number in E.164 form as the server checks it: a leading `+` and
/// at least eight bytes.
pub open spec fn is_valid_phone(p: Seq<char>) -> bool {
    p.len() > 0 && p[0] == '+' && utf8_len(p) >= 8
}

pub fn valid_phone(phone: &str) -> (b: bool)
    ensures
        b == is_valid_phone(phone@),
{
    let v = chars_of(phone);
    if v.len() == 0 || v[0] != '+' {
        return false;
    }
    byte_len(phone) >= 8
}

/// Every character takes at least one byte, and an ASCII character exactly one.
proof fn lemma_utf8_len_bounds(p: Seq<char>)
    ensures
        utf8_len(p) >= p.len(),
        (forall|i: int| 0 <= i < p.len() ==> (#[trigger] p[i] as u32) < 0x80) ==> utf8_len(p) == p.len(),
    decreases p.len(),
{
    if p.len() > 0 {
        let q = p.drop_last();
        lemma_utf8_len_bounds(q);
        if forall|i: int| 0 <= i < p.len() ==> (#[trigger] p[i] as u32) < 0x80 {
            assert forall|i: int| 0 <= i < q.len() implies (#[trigger] q[i] as u32) < 0x80 by {
                assert(q[i] == p[i]);
            }
            assert((p[p.len() - 1] as u32) < 0x80);
        }
    }
}

/// A phone number is accepted only with a leading `+`: without one it is
/// refused whatever follows, and so is one under eight bytes. With a `+`,
/// eight or more characters are always enough, and an ASCII number needs
/// eight characters.
pub proof fn law_phone_needs_plus_and_eight_bytes(p: Seq<char>)
    ensures
        (p.len() == 0 || p[0] != '+') ==> !is_valid_phone(p),
        utf8_len(p) < 8 ==> !is_valid_phone(p),
        p.len() >= 8 && p[0] == '+' ==> is_valid_phone(p),
        (forall|i: int| 0 <= i < p.len() ==> (#[trigger] p[i] as u32) < 0x80) ==> (is_valid_phone(p)
            <==> (p.len() >= 8 && p[0] == '+')),
{
    lemma_utf8_len_bounds(p);
}

/// Six ASCII digits.
pub open spec fn is_six_digits(c: Seq<char>) -> bool {
    c.len() == 6 && forall|i: int| 0 <= i < 6 ==> '0' <= #[trigger] c[i] <= '9'
}

fn six_digits(code: &str) -> (b: bool)
    ensures
        b == is_six_digits(code@),
{
    let v = chars_of(code);
    if v.len() != 6 {
        return false;
    }
    let mut i: usize = 0;
    while i < 6
        invariant
            i <= 6,
            v@ == code@,
            v@.len() == 6,
            forall|k: int| 0 <= k < i ==> '0' <= #[trigger] v@[k] <= '9',
        decreases 6 - i,
    {
        if v[i] < '0' || v[i] > '9' {
            return false;
        }
        i = i + 1;
    }
    true
}

/// A configured fixed code is used only when it is six ASCII digits.
pub fn parse_fixed_otp(code: &str) -> (r: Option<String>)
    ensures
        is_six_digits(code@) ==> (r matches Some(c) && c@ == code@),
        !is_six_digits(code@) ==> r is None,
{
    if six_digits(code) {
        Some(code.to_string())
    } else {
        None
    }
}

/// A number below one million as six digits with leading zeros.
pub open spec fn six_digit_text(n: nat) -> Seq<char> {
    Seq::new(6, |i: int| ((('0' as nat) + (n / pow10((5 - i) as nat)) % 10) as char))
}

pub open spec fn pow10(k: nat) -> nat
    decreases k,
{
    if k == 0 { 1 } else { 10 * pow10((k - 1) as nat) }
}

fn zero_padded_six(n: u32) -> (s: String)
    requires
        n < 1_000_000,
    ensures
        s@ == six_digit_text(n as nat),
{
    let mut digits: Vec<char> = Vec::new();
    let divisors: [u32; 6] = [100000, 10000, 1000, 100, 10, 1];
    let mut i: usize = 0;
    while i < 6
        invariant
            i <= 6,
            n < 1_000_000,
            divisors@ == seq![100000u32, 10000, 1000, 100, 10, 1],
            digits@.len() == i,
            forall|k: int| 0 <= k < i ==> #[trigger] digits@[k] == six_digit_text(n as nat)[k],
        decreases 6 - i,
    {
        let d = divisors[i];
        let digit: u32 = (n / d) % 10;
        proof {
            assert(pow10(0) == 1);
            assert(pow10(1) == 10);
            assert(pow10(2) == 100);
            assert(pow10(3) == 1000);
            assert(pow10(4) == 10000);
            assert(pow10(5) == 100000);
            assert(d == pow10((5 - i) as nat));
        }
        let c = ((48u8 + digit as u8) as char);
        digits.push(c);
        i = i + 1;
    }
    assert(digits@ =~= six_digit_text(n as nat));
    string_from_chars(&digits)
}

/// A random number below `bound` (`rand::thread_rng().gen_range(0..bound)`);
/// it depends on chance, so only the bound is stated. `gen_range` panics on
/// an empty range, which `requires` leaves out.
#[verifier::external_body]
fn random_below(bound: u32) -> (r: u32)
    requires
        bound > 0,
    ensures
        r < bound,
{
    rand::thread_rng().gen_range(0..bound)
}

/// A one-time code: the configured fixed code when it is valid, else six
/// random digits.
pub fn generate_otp(fixed: Option<&str>) -> (code: String)
    ensures
        match fixed {
            Some(f) if is_six_digits(f@) => code@ == f@,
            _ => exists|n: nat| n < 1_000_000 && code@ == #[trigger] six_digit_text(n),
        },
{
    if let Some(f) = fixed {
        if let Some(code) = parse_fixed_otp(f) {
            return code;
        }
    }
    let n = random_below(1_000_000);
    let code = zero_padded_six(n);
    assert(code@ == six_digit_text(n as nat));
    code
}

/// Checks the phone and code of a verification request.
pub fn validate_verify_otp(phone: &str, code: &str) -> (r: Result<(), ErrorBody>)
    ensures
        !is_valid_phone(phone@) ==> (r matches Err(e) && e.code@ == "invalid_phone"@ && e.message@
            == "Phone number must be E.164 format"@),
        is_valid_phone(phone@) && !is_six_digits(code@) ==> (r matches Err(e) && e.code@
            == "invalid_code_format"@ && e.message@ == "OTP must be a 6-digit code"@),
        is_valid_phone(phone@) && is_six_digits(code@) ==> r is Ok,
{
    if !valid_phone(phone) {
        return Err(error_body("invalid_phone", "Phone number must be E.164 format"));
    }
    if !six_digits(code) {
        return Err(error_body("invalid_code_format", "OTP must be a 6-digit code"));
    }
    Ok(())
}

/// How long a one-time code stays valid, in milliseconds (five minutes).
pub const OTP_TTL_MS: i64 = 300_000;

/// When a code issued at `now_ms` expires.
pub fn otp_expires_at(now_ms: i64) -> (t: i64)
    requires
        now_ms <= i64::MAX - OTP_TTL_MS,
    ensures
        t == now_ms + OTP_TTL_MS,
{
    now_ms + OTP_TTL_MS
}

/// Whether a stored code can still be used at `now_ms`: not used before and
/// not expired.
pub fn otp_usable(used: bool, expires_at_ms: i64, now_ms: i64) -> (b: bool)
    ensures
        b == (!used && expires_at_ms > now_ms),
{
    !used && expires_at_ms > now_ms
}

/// The newest stored code for a phone and code: its id, when it expires and
/// whether it was used.
#[derive(Clone, Copy, Debug, PartialEq, Eq, Structural)]
pub struct OtpCodeRow {
    pub id: u128,
    pub expires_at_ms: i64,
    pub used: bool,
}

/// What code verification does next.
#[derive(Clone, Copy, Debug, PartialEq, Eq)]
pub enum VerifyOtpStep {
    /// Mark this code used, on condition that it is still unused.
    MarkUsed(u128),
    /// The code was consumed by this request: find or create the user and
    /// issue a session token.
    IssueSession,
    /// Answer with this error.
    Fail(ErrorBody),
}

/// The step after looking the code up at `now_ms` (`None`: the lookup
/// failed; `Some(None)`: no such code). A missing, used or expired code is
/// refused; a usable one is to be marked used. No session is issued here.
pub fn verify_otp_after_lookup(lookup: Option<Option<OtpCodeRow>>, now_ms: i64) -> (s: VerifyOtpStep)
    ensures
        match lookup {
            None => s matches VerifyOtpStep::Fail(e) && e.code@ == "otp_query_failed"@
                && e.message@ == "Failed to verify OTP"@,
            Some(None) => s matches VerifyOtpStep::Fail(e) && e.code@ == "invalid_otp"@
                && e.message@ == "Invalid or expired OTP"@,
            Some(Some(row)) => if row.used || row.expires_at_ms <= now_ms {
                s matches VerifyOtpStep::Fail(e) && e.code@ == "invalid_otp"@ && e.message@
                    == "Invalid or expired OTP"@
            } else {
                s == VerifyOtpStep::MarkUsed(row.id)
            },
        },
        !(s is IssueSession),
{
    match lookup {
        None => VerifyOtpStep::Fail(error_body("otp_query_failed", "Failed to verify OTP")),
        Some(None) => VerifyOtpStep::Fail(error_body("invalid_otp", "Invalid or expired OTP")),
        Some(Some(row)) => {
            if otp_usable(row.used, row.expires_at_ms, now_ms) {
                VerifyOtpStep::MarkUsed(row.id)
            } else {
                VerifyOtpStep::Fail(error_body("invalid_otp", "Invalid or expired OTP"))
            }
        },
    }
}

/// The step after the conditional mark-as-used (`None`: it failed; otherwise
/// the rows it changed). A session is issued exactly when this request changed
/// the one row from unused to used, so one code yields at most one session;
/// anything else answers that the code was already used.
pub fn verify_otp_after_mark(rows_affected: Option<u64>) -> (s: VerifyOtpStep)
    ensures
        rows_affected == Some(1u64) ==> s == VerifyOtpStep::IssueSession,
        rows_affected != Some(1u64) ==> (s matches VerifyOtpStep::Fail(e) && e.code@
            == "otp_already_used"@ && e.message@ == "OTP has already been used"@),
{
    match rows_affected {
        Some(n) => {
            if n == 1 {
                VerifyOtpStep::IssueSession
            } else {
                VerifyOtpStep::Fail(error_body("otp_already_used", "OTP has already been used"))
            }
        },
        None => VerifyOtpStep::Fail(error_body("otp_already_used", "OTP has already been used")),
    }
}

/// The answer once the code is consumed: the user (`None`: creating or
/// finding the user failed) and the session token issued for it (`None`:
/// issuing failed).
pub fn verify_otp_session_answer(user_id: Option<u128>, session_token: Option<String>) -> (r: Result<
    (u128, String),
    ErrorBody,
>)
    ensures
        match (user_id, session_token) {
            (None, _) => r matches Err(e) && e.code@ == "user_upsert_failed"@ && e.message@
                == "Failed to create user"@,
            (Some(_), None) => r matches Err(e) && e.code@ == "session_issue_failed"@ && e.message@
                == "Failed to create session token"@,
            (Some(u), Some(t)) => r == Ok::<(u128, String), ErrorBody>((u, t)),
        },
{
    match user_id {
        None => Err(error_body("user_upsert_failed", "Failed to create user")),
        Some(u) => match session_token {
            None => Err(error_body("session_issue_failed", "Failed to create session token")),
            Some(t) => Ok((u, t)),
        },
    }
}

/// Whether a token was issued (at `iat`, in seconds) before its user's tokens
/// were revoked (at `revoked_at`, in seconds); never without a revocation.
pub fn is_token_issued_before_revocation(iat: i64, token_revoked_at: Option<i64>) -> (b: bool)
    ensures
        b == (match token_revoked_at {
            Some(r) => iat < r,
            None => false,
        }),
{
    match token_revoked_at {
        Some(revoked_at) => iat < revoked_at,
        None => false,
    }
}

/// A device's public key: standard base64 of exactly 32 bytes.
pub fn decode_ed25519_public_key(public_key_base64: &str) -> (r: Result<Vec<u8>, String>)
    ensures
        match base64_standard_decode(public_key_base64@) {
            None => r matches Err(m) && m@ == "invalid base64 encoding"@,
            Some(b) => if b.len() == 32 {
                r matches Ok(k) && k@ == b
            } else {
                r matches Err(m) && m@ == "ed25519 public key must be 32 bytes"@
            },
        },
{
    match decode_base64(public_key_base64) {
        None => Err("invalid base64 encoding".to_string()),
        Some(key) => {
            if key.len() != 32 {
                Err("ed25519 public key must be 32 bytes".to_string())
            } else {
                Ok(key)
            }
        },
    }
}

/// Checks the device name of a registration and returns it trimmed.
pub fn validate_device_name(device_name: &str) -> (r: Result<String, ErrorBody>)
    ensures
        trimmed(device_name@).len() == 0 ==> (r matches Err(e) && e.code@ == "invalid_device_name"@),
        trimmed(device_name@).len() > 0 ==> (r matches Ok(n) && n@ == trimmed(device_name@)),
{
    let name = trim(device_name);
    if name.as_str().is_empty() {
        Err(error_body("invalid_device_name", "Device name is required"))
    } else {
        Ok(name)
    }
}

/// The token type of an access token.
pub const TOKEN_TYPE_ACCESS: &'static str = "access";
/// The token type of a refresh token.
pub const TOKEN_TYPE_REFRESH: &'static str = "refresh";
/// The token type of a sign-in session token.
pub const TOKEN_TYPE_SESSION: &'static str = "session";

/// Lifetimes of the issued tokens, in seconds.
pub const SESSION_TOKEN_TTL_SECS: i64 = 900;
pub const ACCESS_TOKEN_TTL_SECS: i64 = 604_800;
pub const REFRESH_TOKEN_TTL_SECS: i64 = 2_592_000;

/// The claims of a signed token; times in seconds since the epoch.
#[derive(Clone, Debug, PartialEq, Eq)]
pub struct Claims {
    pub sub: u128,
    pub device_id: Option<u128>,
    pub token_type: String,
    pub exp: i64,
    pub iat: i64,
}

/// The claims of a token issued at `now` (seconds) that lives `ttl` seconds.
pub fn token_claims(user_id: u128, device_id: Option<u128>, token_type: &str, now: i64, ttl: i64) -> (c:
    Claims)
    requires
        i64::MIN <= now + ttl <= i64::MAX,
    ensures
        c.sub == user_id,
        c.device_id == device_id,
        c.token_type@ == token_type@,
        c.iat == now,
        c.exp == now + ttl,
{
    Claims { sub: user_id, device_id, token_type: token_type.to_string(), iat: now, exp: now + ttl }
}

/// The claims of a sign-in session token: no device, fifteen minutes.
pub fn session_token_claims(user_id: u128, now: i64) -> (c: Claims)
    requires
        now <= i64::MAX - SESSION_TOKEN_TTL_SECS,
    ensures
        c.sub == user_id,
        c.device_id is None,
        c.token_type@ == TOKEN_TYPE_SESSION@,
        c.iat == now,
        c.exp == now + SESSION_TOKEN_TTL_SECS,
{
    token_claims(user_id, None, TOKEN_TYPE_SESSION, now, SESSION_TOKEN_TTL_SECS)
}

/// The claims of an access token: seven days.
pub fn access_token_claims(user_id: u128, device_id: Option<u128>, now: i64) -> (c: Claims)
    requires
        now <= i64::MAX - ACCESS_TOKEN_TTL_SECS,
    ensures
        c.sub == user_id,
        c.device_id == device_id,
        c.token_type@ == TOKEN_TYPE_ACCESS@,
        c.iat == now,
        c.exp == now + ACCESS_TOKEN_TTL_SECS,
{
    token_claims(user_id, device_id, TOKEN_TYPE_ACCESS, now, ACCESS_TOKEN_TTL_SECS)
}

/// The claims of a refresh token: thirty days.
pub fn refresh_token_claims(user_id: u128, device_id: Option<u128>, now: i64) -> (c: Claims)
    requires
        now <= i64::MAX - REFRESH_TOKEN_TTL_SECS,
    ensures
        c.sub == user_id,
        c.device_id == device_id,
        c.token_type@ == TOKEN_TYPE_REFRESH@,
        c.iat == now,
        c.exp == now + REFRESH_TOKEN_TTL_SECS,
{
    token_claims(user_id, device_id, TOKEN_TYPE_REFRESH, now, REFRESH_TOKEN_TTL_SECS)
}

/// Decoded claims are accepted only with the expected token type, when one
/// is expected.
pub fn check_token_type(claims: Claims, expected_type: Option<&str>) -> (r: Result<Claims, String>)
    ensures
        match expected_type {
            Some(t) if claims.token_type@ != t@ => r matches Err(m) && m@ == "invalid token type"@,
            _ => r == Ok::<Claims, String>(claims),
        },
{
    match expected_type {
        Some(expected) => {
            if str_equal(claims.token_type.as_str(), expected) {
                Ok(claims)
            } else {
                Err("invalid token type".to_string())
            }
        },
        None => Ok(claims),
    }
}

/// What the user table says of a token's subject.
#[derive(Clone, Copy, Debug, PartialEq, Eq)]
pub struct UserRevocation {
    /// When the user's tokens were revoked, in seconds.
    pub token_revoked_at: Option<i64>,
    pub deleted: bool,
}

/// Valid claims stand unless their user is unknown (`invalid token`), deleted,
/// or revoked its tokens after this one was issued (`token revoked`).
pub fn revocation_decision(claims: Claims, user: Option<UserRevocation>) -> (r: Result<Claims, String>)
    ensures
        match user {
            None => r matches Err(m) && m@ == "invalid token"@,
            Some(u) => if u.deleted || (u.token_revoked_at matches Some(t) && claims.iat < t) {
                r matches Err(m) && m@ == "token revoked"@
            } else {
                r == Ok::<Claims, String>(claims)
            },
        },
{
    match user {
        None => Err("invalid token".to_string()),
        Some(u) => {
            if u.deleted || is_token_issued_before_revocation(claims.iat, u.token_revoked_at) {
                Err("token revoked".to_string())
            } else {
                Ok(claims)
            }
        },
    }
}

/// The `Authorization` header of a request as the server reads it.
#[derive(Clone, Debug, PartialEq, Eq)]
pub enum AuthorizationHeader {
    Missing,
    /// Present but not visible ASCII text.
    Unreadable,
    Text(String),
}

/// Whether a text starts with `Bearer ` (with one space).
pub open spec fn has_bearer_prefix(t: Seq<char>) -> bool {
    t.len() >= 7 && t.take(7) == "Bearer "@
}

/// The bearer token of a request, or the answer that refuses it.
pub fn bearer_token(header: &AuthorizationHeader) -> (r: Result<String, HttpFailure>)
    ensures
        match header {
            AuthorizationHeader::Missing => r matches Err(f) && f.status == 401
                && f.code@ == "missing_authorization"@
                && f.fallback@ == "Authorization header is required"@,
            AuthorizationHeader::Unreadable => r matches Err(f) && f.status == 401
                && f.code@ == "invalid_authorization"@
                && f.fallback@ == "Authorization header is invalid"@,
            AuthorizationHeader::Text(t) => if has_bearer_prefix(t@) {
                r matches Ok(tok) && tok@ == t@.skip(7)
            } else {
                r matches Err(f) && f.status == 401 && f.code@ == "invalid_authorization"@
                    && f.fallback@ == "Expected Bearer token"@
            },
        },
{
    match header {
        AuthorizationHeader::Missing => Err(
            failure(401, "missing_authorization", "Authorization header is required"),
        ),
        AuthorizationHeader::Unreadable => Err(
            failure(401, "invalid_authorization", "Authorization header is invalid"),
        ),
        AuthorizationHeader::Text(t) => {
            let v = chars_of(t.as_str());
            let prefix = chars_of("Bearer ");
            proof {
                reveal_strlit("Bearer ");
            }
            if v.len() >= 7 && v[0] == prefix[0] && v[1] == prefix[1] && v[2] == prefix[2]
                && v[3] == prefix[3] && v[4] == prefix[4] && v[5] == prefix[5] && v[6]
                == prefix[6] {
                assert(v@.take(7) =~= "Bearer "@);
                let mut out: Vec<char> = Vec::new();
                let mut i: usize = 7;
                while i < v.len()
                    invariant
                        7 <= i <= v@.len(),
                        out@ == v@.subrange(7, i as int),
                    decreases v@.len() - i,
                {
                    out.push(v[i]);
                    proof {
                        assert(out@ =~= v@.subrange(7, i + 1));
                    }
                    i = i + 1;
                }
                assert(out@ =~= t@.skip(7));
                Ok(string_from_chars(&out))
            } else {
                proof {
                    if v@.len() >= 7 {
                        assert(v@.take(7) != "Bearer "@) by {
                            if v@.take(7) == "Bearer "@ {
                                assert(v@.take(7)[0] == v@[0]);
                                assert(v@.take(7)[1] == v@[1]);
                                assert(v@.take(7)[2] == v@[2]);
                                assert(v@.take(7)[3] == v@[3]);
                                assert(v@.take(7)[4] == v@[4]);
                                assert(v@.take(7)[5] == v@[5]);
                                assert(v@.take(7)[6] == v@[6]);
                            }
                        }
                    }
                }
                Err(failure(401, "invalid_authorization", "Expected Bearer token"))
            }
        },
    }
}

/// The user an authenticated request acts for.
#[derive(Clone, Copy, Debug, PartialEq, Eq, Structural)]
pub struct UserId(pub u128);

/// The device an authenticated request comes from, when its token names one.
#[derive(Clone, Copy, Debug, PartialEq, Eq, Structural)]
pub struct DeviceId(pub Option<u128>);

/// What the authentication layer does once the bearer token was checked
/// (as an unrevoked access token of an existing user; `Err` when it was not):
/// a good token lets the request through carrying its user and device, any
/// other answers 401 `invalid_token`.
pub fn access_decision(verified: Result<Claims, String>) -> (r: Result<(UserId, DeviceId), HttpFailure>)
    ensures
        match verified {
            Ok(c) => r == Ok::<(UserId, DeviceId), HttpFailure>((UserId(c.sub), DeviceId(c.device_id))),
            Err(_) => r matches Err(f) && f.status == 401 && f.code@ == "invalid_token"@
                && f.fallback@ == "Access token is invalid"@,
        },
{
    match verified {
        Ok(c) => Ok((UserId(c.sub), DeviceId(c.device_id))),
        Err(_) => Err(failure(401, "invalid_token", "Access token is invalid")),
    }
}

} // verus!
