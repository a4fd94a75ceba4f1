//! Localization on the server: canonical language tags, the locale of a
//! request, and localized error messages.

use vstd::prelude::*;
use crate::text::{
    ascii_lower, ascii_upper, chars_of, is_ascii_alpha, is_ascii_digit, is_ws, str_equal,
    string_from_chars, to_lower, to_upper, trim, trim_end, trim_start, trimmed,
};

verus! {

/// The locale a request is served in.
#[derive(Clone, Debug, PartialEq, Eq)]
pub struct RequestLocale(pub String);

/// The text with `_` turned into `-`.
pub open spec fn dashes(s: Seq<char>) -> Seq<char> {
    s.map_values(|c: char| if c == '_' { '-' } else { c })
}

/// Splitting a text on a separator, reading left to right: the finished
/// pieces and the piece in progress.
pub open spec fn split_acc(s: Seq<char>, sep: char) -> (Seq<Seq<char>>, Seq<char>)
    decreases s.len(),
{
    if s.len() == 0 {
        (Seq::empty(), Seq::empty())
    } else {
        let (done, cur) = split_acc(s.drop_last(), sep);
        if s.last() == sep {
            (done.push(cur), Seq::empty())
        } else {
            (done, cur.push(s.last()))
        }
    }
}

/// The pieces of a text between separators (`str::split`): one more than
/// there are separators, empty pieces included.
pub open spec fn split_on(s: Seq<char>, sep: char) -> Seq<Seq<char>> {
    split_acc(s, sep).0.push(split_acc(s, sep).1)
}

pub open spec fn all_alpha(p: Seq<char>) -> bool {
    forall|i: int| 0 <= i < p.len() ==> is_ascii_alpha(#[trigger] p[i])
}

pub open spec fn all_digit(p: Seq<char>) -> bool {
    forall|i: int| 0 <= i < p.len() ==> is_ascii_digit(#[trigger] p[i])
}

pub open spec fn all_alnum(p: Seq<char>) -> bool {
    forall|i: int| 0 <= i < p.len() ==> is_ascii_alpha(#[trigger] p[i]) || is_ascii_digit(p[i])
}

pub open spec fn lower(p: Seq<char>) -> Seq<char> {
    p.map_values(|c: char| to_lower(c))
}

pub open spec fn upper(p: Seq<char>) -> Seq<char> {
    p.map_values(|c: char| to_upper(c))
}

/// The canonical case of a subtag: four letters (a script) in title case,
/// two letters or three digits (a region) in upper case, anything else in
/// lower case.
pub open spec fn canonical_subtag(p: Seq<char>) -> Seq<char> {
    if p.len() == 4 && all_alpha(p) {
        seq![to_upper(p[0])] + lower(p.skip(1))
    } else if (p.len() == 2 && all_alpha(p)) || (p.len() == 3 && all_digit(p)) {
        upper(p)
    } else {
        lower(p)
    }
}

/// A subtag after the language: one to eight ASCII letters or digits.
pub open spec fn subtag_ok(p: Seq<char>) -> bool {
    1 <= p.len() <= 8 && all_alnum(p)
}

/// Pieces joined with `-`.
pub open spec fn join_dash(ps: Seq<Seq<char>>) -> Seq<char>
    decreases ps.len(),
{
    if ps.len() == 0 {
        Seq::empty()
    } else if ps.len() == 1 {
        ps[0]
    } else {
        join_dash(ps.drop_last()) + seq!['-'] + ps.last()
    }
}

/// The canonical form of a language tag: trimmed, `_` read as `-`, at most 35
/// characters and 8 subtags, a language of two or three letters (lower case),
/// and further subtags of one to eight letters or digits in their canonical
/// case; `None` for anything else.
pub open spec fn normalized_locale(input: Seq<char>) -> Option<Seq<char>> {
    let n = dashes(trimmed(input));
    let parts = split_on(n, '-');
    if n.len() == 0 || n.len() > 35 || parts.len() > 8 {
        None
    } else if !(2 <= parts[0].len() <= 3 && all_alpha(parts[0])) {
        None
    } else if exists|i: int| 1 <= i < parts.len() && !subtag_ok(#[trigger] parts[i]) {
        None
    } else {
        Some(
            join_dash(
                Seq::new(
                    parts.len(),
                    |i: int| if i == 0 { lower(parts[0]) } else { canonical_subtag(parts[i]) },
                ),
            ),
        )
    }
}

fn check_alpha(p: &Vec<char>) -> (b: bool)
    ensures
        b == all_alpha(p@),
{
    let mut i: usize = 0;
    while i < p.len()
        invariant
            i <= p@.len(),
            forall|k: int| 0 <= k < i ==> is_ascii_alpha(#[trigger] p@[k]),
        decreases p@.len() - i,
    {
        let c = p[i];
        if !(('a' <= c && c <= 'z') || ('A' <= c && c <= 'Z')) {
            return false;
        }
        i = i + 1;
    }
    true
}

fn check_digits(p: &Vec<char>) -> (b: bool)
    ensures
        b == all_digit(p@),
{
    let mut i: usize = 0;
    while i < p.len()
        invariant
            i <= p@.len(),
            forall|k: int| 0 <= k < i ==> is_ascii_digit(#[trigger] p@[k]),
        decreases p@.len() - i,
    {
        let c = p[i];
        if !('0' <= c && c <= '9') {
            return false;
        }
        i = i + 1;
    }
    true
}

fn check_alnum(p: &Vec<char>) -> (b: bool)
    ensures
        b == all_alnum(p@),
{
    let mut i: usize = 0;
    while i < p.len()
        invariant
            i <= p@.len(),
            forall|k: int| 0 <= k < i ==> is_ascii_alpha(#[trigger] p@[k]) || is_ascii_digit(p@[k]),
        decreases p@.len() - i,
    {
        let c = p[i];
        if !(('a' <= c && c <= 'z') || ('A' <= c && c <= 'Z') || ('0' <= c && c <= '9')) {
            return false;
        }
        i = i + 1;
    }
    true
}

/// Appends a piece of text, each character mapped to lower case (or upper
/// case when `up`), from position `start`.
fn append_cased(out: &mut Vec<char>, p: &Vec<char>, start: usize, up: bool)
    requires
        start <= p@.len(),
    ensures
        final(out)@ == old(out)@ + (if up { upper(p@.skip(start as int)) } else { lower(p@.skip(start as int)) }),
{
    let ghost base = old(out)@;
    let mut i: usize = start;
    while i < p.len()
        invariant
            start <= i <= p@.len(),
            out@ == base + (if up { upper(p@.subrange(start as int, i as int)) } else { lower(p@.subrange(start as int, i as int)) }),
        decreases p@.len() - i,
    {
        let c = if up { ascii_upper(p[i]) } else { ascii_lower(p[i]) };
        out.push(c);
        proof {
            assert(p@.subrange(start as int, i + 1) == p@.subrange(start as int, i as int).push(p@[i as int]));
            if up {
                assert(upper(p@.subrange(start as int, i + 1)) =~= upper(p@.subrange(start as int, i as int)).push(to_upper(p@[i as int])));
            } else {
                assert(lower(p@.subrange(start as int, i + 1)) =~= lower(p@.subrange(start as int, i as int)).push(to_lower(p@[i as int])));
            }
            assert(out@ =~= base + (if up { upper(p@.subrange(start as int, i + 1)) } else { lower(p@.subrange(start as int, i + 1)) }));
        }
        i = i + 1;
    }
    assert(p@.subrange(start as int, i as int) =~= p@.skip(start as int));
}

fn append_canonical(out: &mut Vec<char>, p: &Vec<char>)
    ensures
        final(out)@ == old(out)@ + canonical_subtag(p@),
{
    let alpha = check_alpha(p);
    if p.len() == 4 && alpha {
        let ghost base = out@;
        out.push(ascii_upper(p[0]));
        append_cased(out, p, 1, false);
        assert(out@ =~= base + canonical_subtag(p@));
    } else if (p.len() == 2 && alpha) || (p.len() == 3 && check_digits(p)) {
        append_cased(out, p, 0, true);
        assert(p@.skip(0) =~= p@);
    } else {
        append_cased(out, p, 0, false);
        assert(p@.skip(0) =~= p@);
    }
}

proof fn lemma_join_push(ps: Seq<Seq<char>>, p: Seq<char>)
    ensures
        join_dash(ps.push(p)) == if ps.len() == 0 { p } else { join_dash(ps) + seq!['-'] + p },
{
    assert(ps.push(p).drop_last() == ps);
}

/// The canonical form of a language tag, or `None` when it is not one.
pub fn normalize_locale(input: &str) -> (r: Option<String>)
    ensures
        match (r, normalized_locale(input@)) {
            (Some(a), Some(b)) => a@ == b,
            (None, None) => true,
            _ => false,
        },
{
    let t = trim(input);
    let v = chars_of(t.as_str());
    let ghost n = dashes(trimmed(input@));
    let mut w: Vec<char> = Vec::new();
    let mut i: usize = 0;
    while i < v.len()
        invariant
            i <= v@.len(),
            v@ == trimmed(input@),
            w@ == dashes(v@.take(i as int)),
        decreases v@.len() - i,
    {
        let c = v[i];
        w.push(if c == '_' { '-' } else { c });
        proof {
            assert(v@.take(i + 1) == v@.take(i as int).push(c));
            assert(w@ =~= dashes(v@.take(i + 1)));
        }
        i = i + 1;
    }
    assert(v@.take(i as int) == v@);
    assert(w@ == n);
    if w.len() == 0 || w.len() > 35 {
        return None;
    }
    // Split on '-'.
    let mut done: Vec<Vec<char>> = Vec::new();
    let mut cur: Vec<char> = Vec::new();
    let mut j: usize = 0;
    while j < w.len()
        invariant
            j <= w@.len(),
            w@ == n,
            split_acc(w@.take(j as int), '-') == (done@.map_values(|x: Vec<char>| x@), cur@),
        decreases w@.len() - j,
    {
        let c = w[j];
        proof {
            assert(w@.take(j + 1).drop_last() == w@.take(j as int));
            assert(w@.take(j + 1).last() == c);
        }
        if c == '-' {
            let finished = cur;
            cur = Vec::new();
            let ghost prev = done@;
            done.push(finished);
            proof {
                assert(done@.map_values(|x: Vec<char>| x@) =~= prev.map_values(|x: Vec<char>| x@).push(finished@));
            }
        } else {
            cur.push(c);
        }
        j = j + 1;
    }
    assert(w@.take(j as int) == w@);
    let ghost prev = done@;
    done.push(cur);
    let ghost parts = split_on(n, '-');
    proof {
        assert(done@.map_values(|x: Vec<char>| x@) =~= prev.map_values(|x: Vec<char>| x@).push(split_acc(n, '-').1));
        assert(done@.map_values(|x: Vec<char>| x@) == parts);
        assert forall|k: int| 0 <= k < done@.len() implies #[trigger] done@[k]@ == parts[k] by {
            assert(done@.map_values(|x: Vec<char>| x@)[k] == done@[k]@);
        }
    }
    if done.len() > 8 {
        return None;
    }
    let lang = &done[0];
    if !(2 <= lang.len() && lang.len() <= 3 && check_alpha(lang)) {
        return None;
    }
    let mut k: usize = 1;
    while k < done.len()
        invariant
            1 <= k <= done@.len(),
            n == dashes(trimmed(input@)),
            parts == split_on(n, '-'),
            1 <= n.len() <= 35,
            parts.len() <= 8,
            2 <= parts[0].len() <= 3 && all_alpha(parts[0]),
            done@.len() == parts.len(),
            forall|x: int| 0 <= x < done@.len() ==> #[trigger] done@[x]@ == parts[x],
            forall|x: int| 1 <= x < k ==> subtag_ok(#[trigger] parts[x]),
        decreases done@.len() - k,
    {
        let p = &done[k];
        if !(1 <= p.len() && p.len() <= 8 && check_alnum(p)) {
            assert(!subtag_ok(parts[k as int]));
            return None;
        }
        k = k + 1;
    }
    let ghost canon = Seq::new(
        parts.len(),
        |x: int| if x == 0 { lower(parts[0]) } else { canonical_subtag(parts[x]) },
    );
    let mut out: Vec<char> = Vec::new();
    append_cased(&mut out, &done[0], 0, false);
    proof {
        assert(done@[0]@.skip(0) =~= done@[0]@);
        assert(canon.take(1) =~= seq![canon[0]]);
        assert(join_dash(canon.take(1)) == canon[0]);
    }
    let mut m: usize = 1;
    while m < done.len()
        invariant
            1 <= m <= done@.len(),
            n == dashes(trimmed(input@)),
            parts == split_on(n, '-'),
            1 <= n.len() <= 35,
            parts.len() <= 8,
            2 <= parts[0].len() <= 3 && all_alpha(parts[0]),
            forall|x: int| 1 <= x < parts.len() ==> subtag_ok(#[trigger] parts[x]),
            done@.len() == parts.len(),
            canon.len() == parts.len(),
            canon == Seq::new(
                parts.len(),
                |x: int| if x == 0 { lower(parts[0]) } else { canonical_subtag(parts[x]) },
            ),
            forall|x: int| 0 <= x < done@.len() ==> #[trigger] done@[x]@ == parts[x],
            out@ == join_dash(canon.take(m as int)),
        decreases done@.len() - m,
    {
        out.push('-');
        append_canonical(&mut out, &done[m]);
        proof {
            assert(canon.take(m + 1) == canon.take(m as int).push(canon[m as int]));
            lemma_join_push(canon.take(m as int), canon[m as int]);
            assert(out@ =~= join_dash(canon.take(m + 1)));
        }
        m = m + 1;
    }
    assert(canon.take(m as int) == canon);
    Some(string_from_chars(&out))
}


/// Korean translations of error messages, by code.
pub open spec fn korean_catalog() -> Seq<(Seq<char>, Seq<char>)> {
    seq![
        ("missing_authorization"@, "Authorization 헤더가 필요합니다"@),
        ("invalid_authorization"@, "Authorization 헤더가 올바르지 않습니다"@),
        ("invalid_token"@, "액세스 토큰이 올바르지 않습니다"@),
        ("invalid_phone"@, "전화번호는 E.164 형식이어야 합니다"@),
        ("otp_store_failed"@, "OTP를 생성하지 못했습니다"@),
        ("invalid_code_format"@, "OTP는 6자리 숫자여야 합니다"@),
        ("transaction_start_failed"@, "OTP 검증을 시작하지 못했습니다"@),
        ("otp_query_failed"@, "OTP를 검증하지 못했습니다"@),
        ("invalid_otp"@, "OTP가 올바르지 않거나 만료되었습니다"@),
        ("otp_already_used"@, "이미 사용된 OTP입니다"@),
        ("user_upsert_failed"@, "사용자 정보를 생성하지 못했습니다"@),
        ("transaction_commit_failed"@, "OTP 검증을 완료하지 못했습니다"@),
        ("session_issue_failed"@, "세션 토큰을 생성하지 못했습니다"@),
        ("invalid_device_name"@, "기기 이름이 필요합니다"@),
        ("invalid_session_token"@, "세션 토큰이 올바르지 않습니다"@),
        ("invalid_device_key"@, "기기 키가 올바르지 않습니다"@),
        ("device_register_failed"@, "기기를 등록하지 못했습니다"@),
        ("access_issue_failed"@, "액세스 토큰을 발급하지 못했습니다"@),
        ("refresh_issue_failed"@, "리프레시 토큰을 발급하지 못했습니다"@),
        ("invalid_refresh_token"@, "리프레시 토큰이 올바르지 않습니다"@),
        ("session_revoke_failed"@, "세션을 무효화하지 못했습니다"@),
        ("user_not_found"@, "사용자를 찾을 수 없습니다"@),
        ("query_failed"@, "조회에 실패했습니다"@),
        ("invalid_content"@, "메시지 내용이 필요합니다"@),
        ("invalid_format"@, "format은 markdown 또는 plain 이어야 합니다"@),
        ("spam_detected"@, "금지된 내용이 포함된 메시지입니다"@),
        ("message_lookup_failed"@, "메시지를 전송하지 못했습니다"@),
        ("message_send_failed"@, "메시지를 전송하지 못했습니다"@),
        ("forbidden"@, "이 작업을 수행할 권한이 없습니다"@),
        ("conversation_not_found"@, "대화를 찾을 수 없습니다"@),
        ("message_not_found"@, "메시지를 찾을 수 없습니다"@),
        ("membership_check_failed"@, "대화 멤버십을 확인하지 못했습니다"@),
        ("message_history_failed"@, "메시지 기록을 불러오지 못했습니다"@),
        ("conversation_list_failed"@, "대화 목록을 불러오지 못했습니다"@),
        ("too_many_members"@, "대화 최대 인원 수를 초과했습니다"@),
        ("conversation_create_failed"@, "대화를 생성하지 못했습니다"@),
        ("already_member"@, "이미 대화에 참여 중인 사용자입니다"@),
        ("member_not_found"@, "대화 멤버를 찾을 수 없습니다"@),
        ("cannot_remove_last_owner"@, "마지막 owner는 제거할 수 없습니다"@),
        ("invalid_group_name"@, "그룹 이름이 필요합니다"@),
        ("invalid_channel_name"@, "채널 이름이 필요합니다"@),
        ("channel_create_failed"@, "채널을 생성하지 못했습니다"@),
        ("channel_list_failed"@, "채널 목록을 불러오지 못했습니다"@),
        ("channel_not_found"@, "채널을 찾을 수 없습니다"@),
        ("channel_permission_failed"@, "채널 권한을 확인하지 못했습니다"@),
        ("channel_access_failed"@, "채널 접근 권한을 확인하지 못했습니다"@),
        ("channel_message_history_failed"@, "채널 메시지 기록을 불러오지 못했습니다"@),
        ("invalid_base64"@, "하나 이상의 키가 올바른 base64 형식이 아닙니다"@),
        ("bundle_not_found"@, "프리키 번들을 찾을 수 없습니다"@),
        ("keys_upload_failed"@, "키 번들을 업로드하지 못했습니다"@),
        ("keys_fetch_failed"@, "키 번들을 불러오지 못했습니다"@),
        ("backup_initiate_failed"@, "백업을 시작하지 못했습니다"@),
        ("backup_list_failed"@, "백업 목록을 불러오지 못했습니다"@),
        ("backup_not_found"@, "백업을 찾을 수 없습니다"@),
        ("backup_restore_failed"@, "백업을 복원하지 못했습니다"@),
        ("backup_delete_failed"@, "백업을 삭제하지 못했습니다"@),
        ("backup_settings_failed"@, "백업 설정을 불러오지 못했습니다"@),
        ("backup_settings_update_failed"@, "백업 설정을 업데이트하지 못했습니다"@),
        ("missing_device_id"@, "액세스 토큰에 device_id가 포함되어야 합니다"@),
        ("invalid_push_token"@, "푸시 토큰은 비어 있을 수 없습니다"@),
        ("push_register_failed"@, "푸시 토큰을 등록하지 못했습니다"@),
        ("push_unregister_failed"@, "푸시 토큰을 해제하지 못했습니다"@),
        ("invalid_duration"@, "duration_minutes는 0보다 커야 합니다"@),
        ("invalid_mute_request"@, "duration_minutes 또는 forever 중 하나를 지정해야 합니다"@),
        ("mute_failed"@, "대화를 음소거하지 못했습니다"@),
        ("unmute_failed"@, "대화 음소거를 해제하지 못했습니다"@),
        ("invalid_frame"@, "올바르지 않은 WebSocket 프레임입니다"@),
        ("message_too_large"@, "WebSocket 메시지가 허용 크기를 초과했습니다"@),
        ("rate_limit_exceeded"@, "요청이 너무 많습니다. 잠시 후 다시 시도해주세요."@),
        ("too_many_connections"@, "동시 WebSocket 연결 수를 초과했습니다"@),
        ("not_found"@, "대상을 찾을 수 없습니다"@),
        ("unsupported_protocol_version"@, "지원하지 않는 프로토콜 버전입니다"@),
        ("invalid_agent_token"@, "에이전트 토큰이 올바르지 않습니다"@),
        ("agent_missing_token"@, "에이전트 토큰이 필요합니다"@),
        ("nats_unavailable"@, "에이전트 게이트웨이에 NATS가 필요합니다"@),
        ("subscribe_failed"@, "에이전트 구독을 시작하지 못했습니다"@),
        ("invalid_target_type"@, "target_type은 message, user, agent 중 하나여야 합니다"@),
        ("invalid_reason"@, "신고 사유가 필요합니다"@),
        ("report_failed"@, "신고를 접수하지 못했습니다"@),
        ("cannot_block_self"@, "자기 자신을 차단할 수 없습니다"@),
        ("block_failed"@, "사용자를 차단하지 못했습니다"@),
        ("unblock_failed"@, "사용자 차단을 해제하지 못했습니다"@),
        ("block_list_failed"@, "차단 사용자 목록을 불러오지 못했습니다"@),
        ("admin_check_failed"@, "관리자 권한을 확인하지 못했습니다"@),
        ("suspend_failed"@, "사용자를 정지하지 못했습니다"@),
        ("unsuspend_failed"@, "사용자 정지를 해제하지 못했습니다"@),
        ("reports_failed"@, "신고 목록을 불러오지 못했습니다"@),
        ("device_not_found"@, "기기를 찾을 수 없습니다"@),
        ("delete_failed"@, "삭제하지 못했습니다"@),
        ("registration_failed"@, "에이전트를 등록하지 못했습니다"@),
        ("internal_error"@, "내부 오류가 발생했습니다"@),
        ("agent_not_found"@, "에이전트를 찾을 수 없습니다"@),
        ("agent_not_found_or_not_owner"@, "에이전트를 찾을 수 없거나 소유자가 아닙니다"@),
        ("rotate_failed"@, "에이전트 키를 교체하지 못했습니다"@),
        ("already_invited"@, "에이전트가 이미 초대되어 있습니다"@),
        ("invite_failed"@, "에이전트를 초대하지 못했습니다"@),
        ("remove_failed"@, "에이전트를 제거하지 못했습니다"@),
        ("search_failed"@, "마켓플레이스를 검색하지 못했습니다"@),
        ("already_installed"@, "에이전트가 이미 설치되어 있습니다"@),
        ("install_failed"@, "에이전트를 설치하지 못했습니다"@),
        ("not_installed"@, "설치되지 않은 에이전트입니다"@),
        ("uninstall_failed"@, "에이전트를 제거하지 못했습니다"@),
        ("invalid_manifest"@, "매니페스트가 올바르지 않습니다"@),
        ("publish_failed"@, "에이전트를 공개하지 못했습니다"@),
        ("invalid_preferred_locale"@, "선호 언어는 ko-KR 또는 en-US 같은 BCP-47 형식이어야 합니다"@),
        ("invalid_username"@, "사용자명은 3~20자의 소문자, 숫자, 밑줄만 사용할 수 있습니다"@),
        ("username_taken"@, "이미 사용 중인 사용자명입니다"@),
        ("update_failed"@, "프로필을 업데이트하지 못했습니다"@),
        ("missing_search_param"@, "username 또는 phone 중 하나를 제공해야 합니다"@),
    ]
}

pub open spec fn pair_view(p: (&'static str, &'static str)) -> (Seq<char>, Seq<char>) {
    (p.0@, p.1@)
}

fn korean_catalog_entries() -> (v: Vec<(&'static str, &'static str)>)
    ensures
        v@.map_values(|p: (&'static str, &'static str)| pair_view(p)) == korean_catalog(),
{
    let v: Vec<(&'static str, &'static str)> = vec![
        ("missing_authorization", "Authorization 헤더가 필요합니다"),
        ("invalid_authorization", "Authorization 헤더가 올바르지 않습니다"),
        ("invalid_token", "액세스 토큰이 올바르지 않습니다"),
        ("invalid_phone", "전화번호는 E.164 형식이어야 합니다"),
        ("otp_store_failed", "OTP를 생성하지 못했습니다"),
        ("invalid_code_format", "OTP는 6자리 숫자여야 합니다"),
        ("transaction_start_failed", "OTP 검증을 시작하지 못했습니다"),
        ("otp_query_failed", "OTP를 검증하지 못했습니다"),
        ("invalid_otp", "OTP가 올바르지 않거나 만료되었습니다"),
        ("otp_already_used", "이미 사용된 OTP입니다"),
        ("user_upsert_failed", "사용자 정보를 생성하지 못했습니다"),
        ("transaction_commit_failed", "OTP 검증을 완료하지 못했습니다"),
        ("session_issue_failed", "세션 토큰을 생성하지 못했습니다"),
        ("invalid_device_name", "기기 이름이 필요합니다"),
        ("invalid_session_token", "세션 토큰이 올바르지 않습니다"),
        ("invalid_device_key", "기기 키가 올바르지 않습니다"),
        ("device_register_failed", "기기를 등록하지 못했습니다"),
        ("access_issue_failed", "액세스 토큰을 발급하지 못했습니다"),
        ("refresh_issue_failed", "리프레시 토큰을 발급하지 못했습니다"),
        ("invalid_refresh_token", "리프레시 토큰이 올바르지 않습니다"),
        ("session_revoke_failed", "세션을 무효화하지 못했습니다"),
        ("user_not_found", "사용자를 찾을 수 없습니다"),
        ("query_failed", "조회에 실패했습니다"),
        ("invalid_content", "메시지 내용이 필요합니다"),
        ("invalid_format", "format은 markdown 또는 plain 이어야 합니다"),
        ("spam_detected", "금지된 내용이 포함된 메시지입니다"),
        ("message_lookup_failed", "메시지를 전송하지 못했습니다"),
        ("message_send_failed", "메시지를 전송하지 못했습니다"),
        ("forbidden", "이 작업을 수행할 권한이 없습니다"),
        ("conversation_not_found", "대화를 찾을 수 없습니다"),
        ("message_not_found", "메시지를 찾을 수 없습니다"),
        ("membership_check_failed", "대화 멤버십을 확인하지 못했습니다"),
        ("message_history_failed", "메시지 기록을 불러오지 못했습니다"),
        ("conversation_list_failed", "대화 목록을 불러오지 못했습니다"),
        ("too_many_members", "대화 최대 인원 수를 초과했습니다"),
        ("conversation_create_failed", "대화를 생성하지 못했습니다"),
        ("already_member", "이미 대화에 참여 중인 사용자입니다"),
        ("member_not_found", "대화 멤버를 찾을 수 없습니다"),
        ("cannot_remove_last_owner", "마지막 owner는 제거할 수 없습니다"),
        ("invalid_group_name", "그룹 이름이 필요합니다"),
        ("invalid_channel_name", "채널 이름이 필요합니다"),
        ("channel_create_failed", "채널을 생성하지 못했습니다"),
        ("channel_list_failed", "채널 목록을 불러오지 못했습니다"),
        ("channel_not_found", "채널을 찾을 수 없습니다"),
        ("channel_permission_failed", "채널 권한을 확인하지 못했습니다"),
        ("channel_access_failed", "채널 접근 권한을 확인하지 못했습니다"),
        ("channel_message_history_failed", "채널 메시지 기록을 불러오지 못했습니다"),
        ("invalid_base64", "하나 이상의 키가 올바른 base64 형식이 아닙니다"),
        ("bundle_not_found", "프리키 번들을 찾을 수 없습니다"),
        ("keys_upload_failed", "키 번들을 업로드하지 못했습니다"),
        ("keys_fetch_failed", "키 번들을 불러오지 못했습니다"),
        ("backup_initiate_failed", "백업을 시작하지 못했습니다"),
        ("backup_list_failed", "백업 목록을 불러오지 못했습니다"),
        ("backup_not_found", "백업을 찾을 수 없습니다"),
        ("backup_restore_failed", "백업을 복원하지 못했습니다"),
        ("backup_delete_failed", "백업을 삭제하지 못했습니다"),
        ("backup_settings_failed", "백업 설정을 불러오지 못했습니다"),
        ("backup_settings_update_failed", "백업 설정을 업데이트하지 못했습니다"),
        ("missing_device_id", "액세스 토큰에 device_id가 포함되어야 합니다"),
        ("invalid_push_token", "푸시 토큰은 비어 있을 수 없습니다"),
        ("push_register_failed", "푸시 토큰을 등록하지 못했습니다"),
        ("push_unregister_failed", "푸시 토큰을 해제하지 못했습니다"),
        ("invalid_duration", "duration_minutes는 0보다 커야 합니다"),
        ("invalid_mute_request", "duration_minutes 또는 forever 중 하나를 지정해야 합니다"),
        ("mute_failed", "대화를 음소거하지 못했습니다"),
        ("unmute_failed", "대화 음소거를 해제하지 못했습니다"),
        ("invalid_frame", "올바르지 않은 WebSocket 프레임입니다"),
        ("message_too_large", "WebSocket 메시지가 허용 크기를 초과했습니다"),
        ("rate_limit_exceeded", "요청이 너무 많습니다. 잠시 후 다시 시도해주세요."),
        ("too_many_connections", "동시 WebSocket 연결 수를 초과했습니다"),
        ("not_found", "대상을 찾을 수 없습니다"),
        ("unsupported_protocol_version", "지원하지 않는 프로토콜 버전입니다"),
        ("invalid_agent_token", "에이전트 토큰이 올바르지 않습니다"),
        ("agent_missing_token", "에이전트 토큰이 필요합니다"),
        ("nats_unavailable", "에이전트 게이트웨이에 NATS가 필요합니다"),
        ("subscribe_failed", "에이전트 구독을 시작하지 못했습니다"),
        ("invalid_target_type", "target_type은 message, user, agent 중 하나여야 합니다"),
        ("invalid_reason", "신고 사유가 필요합니다"),
        ("report_failed", "신고를 접수하지 못했습니다"),
        ("cannot_block_self", "자기 자신을 차단할 수 없습니다"),
        ("block_failed", "사용자를 차단하지 못했습니다"),
        ("unblock_failed", "사용자 차단을 해제하지 못했습니다"),
        ("block_list_failed", "차단 사용자 목록을 불러오지 못했습니다"),
        ("admin_check_failed", "관리자 권한을 확인하지 못했습니다"),
        ("suspend_failed", "사용자를 정지하지 못했습니다"),
        ("unsuspend_failed", "사용자 정지를 해제하지 못했습니다"),
        ("reports_failed", "신고 목록을 불러오지 못했습니다"),
        ("device_not_found", "기기를 찾을 수 없습니다"),
        ("delete_failed", "삭제하지 못했습니다"),
        ("registration_failed", "에이전트를 등록하지 못했습니다"),
        ("internal_error", "내부 오류가 발생했습니다"),
        ("agent_not_found", "에이전트를 찾을 수 없습니다"),
        ("agent_not_found_or_not_owner", "에이전트를 찾을 수 없거나 소유자가 아닙니다"),
        ("rotate_failed", "에이전트 키를 교체하지 못했습니다"),
        ("already_invited", "에이전트가 이미 초대되어 있습니다"),
        ("invite_failed", "에이전트를 초대하지 못했습니다"),
        ("remove_failed", "에이전트를 제거하지 못했습니다"),
        ("search_failed", "마켓플레이스를 검색하지 못했습니다"),
        ("already_installed", "에이전트가 이미 설치되어 있습니다"),
        ("install_failed", "에이전트를 설치하지 못했습니다"),
        ("not_installed", "설치되지 않은 에이전트입니다"),
        ("uninstall_failed", "에이전트를 제거하지 못했습니다"),
        ("invalid_manifest", "매니페스트가 올바르지 않습니다"),
        ("publish_failed", "에이전트를 공개하지 못했습니다"),
        ("invalid_preferred_locale", "선호 언어는 ko-KR 또는 en-US 같은 BCP-47 형식이어야 합니다"),
        ("invalid_username", "사용자명은 3~20자의 소문자, 숫자, 밑줄만 사용할 수 있습니다"),
        ("username_taken", "이미 사용 중인 사용자명입니다"),
        ("update_failed", "프로필을 업데이트하지 못했습니다"),
        ("missing_search_param", "username 또는 phone 중 하나를 제공해야 합니다"),
    ];
    assert(v@.map_values(|p: (&'static str, &'static str)| pair_view(p)) =~= korean_catalog());
    v
}

/// The first translation of a code in a catalog.
pub open spec fn catalog_lookup(t: Seq<(Seq<char>, Seq<char>)>, code: Seq<char>) -> Option<Seq<char>>
    decreases t.len(),
{
    if t.len() == 0 {
        None
    } else if t[0].0 == code {
        Some(t[0].1)
    } else {
        catalog_lookup(t.drop_first(), code)
    }
}

/// The language of a locale: what precedes its first `-`.
pub open spec fn primary_language_of(locale: Seq<char>) -> Seq<char> {
    split_on(locale, '-')[0]
}

proof fn lemma_split_first(s: Seq<char>, i: int)
    requires
        0 <= i <= s.len(),
        forall|k: int| 0 <= k < i ==> #[trigger] s[k] != '-',
    ensures
        split_acc(s.take(i), '-').0.len() == 0,
        split_acc(s.take(i), '-').1 == s.take(i),
    decreases i,
{
    if i > 0 {
        lemma_split_first(s, i - 1);
        assert(s.take(i).drop_last() == s.take(i - 1));
    }
}

proof fn lemma_split_prefix_first(s: Seq<char>, j: int)
    requires
        0 <= j <= s.len(),
        split_acc(s.take(j), '-').0.len() > 0,
    ensures
        split_acc(s, '-').0.len() > 0,
        split_acc(s, '-').0[0] == split_acc(s.take(j), '-').0[0],
    decreases s.len() - j,
{
    if j == s.len() {
        assert(s.take(j) == s);
    } else {
        assert(s.drop_last().take(j) == s.take(j));
        lemma_split_prefix_first(s.drop_last(), j);
    }
}

/// The language part of a locale.
pub fn primary_language(locale: &str) -> (l: String)
    ensures
        l@ == primary_language_of(locale@),
{
    let v = chars_of(locale);
    let mut i: usize = 0;
    while i < v.len() && v[i] != '-'
        invariant
            i <= v@.len(),
            v@ == locale@,
            forall|k: int| 0 <= k < i ==> #[trigger] v@[k] != '-',
        decreases v@.len() - i,
    {
        i = i + 1;
    }
    let mut out: Vec<char> = Vec::new();
    let mut k: usize = 0;
    while k < i
        invariant
            k <= i <= v@.len(),
            out@ == v@.take(k as int),
        decreases i - k,
    {
        out.push(v[k]);
        proof {
            assert(v@.take(k + 1) == v@.take(k as int).push(v@[k as int]));
        }
        k = k + 1;
    }
    proof {
        lemma_split_first(v@, i as int);
        if i == v@.len() {
            assert(v@.take(i as int) == v@);
        } else {
            assert(v@.take(i + 1).drop_last() == v@.take(i as int));
            assert(split_acc(v@.take(i + 1), '-').0 == seq![v@.take(i as int)]);
            lemma_split_prefix_first(v@, i + 1);
        }
    }
    string_from_chars(&out)
}

/// A localized message: the Korean translation of the code when the
/// locale's language is Korean and one exists, else the fallback.
pub open spec fn localized(code: Seq<char>, locale: Seq<char>, fallback: Seq<char>) -> Seq<char> {
    if primary_language_of(locale) == "ko"@ {
        match catalog_lookup(korean_catalog(), code) {
            Some(m) => m,
            None => fallback,
        }
    } else {
        fallback
    }
}

pub fn localized_message<'a>(code: &'a str, locale: &str, fallback: &'a str) -> (m: &'a str)
    ensures
        m@ == localized(code@, locale@, fallback@),
{
    let lang = primary_language(locale);
    proof {
        reveal_strlit("ko");
    }
    if !str_equal(lang.as_str(), "ko") {
        return fallback;
    }
    let table = korean_catalog_entries();
    let ghost t = korean_catalog();
    assert(t.skip(0) == t);
    let mut i: usize = 0;
    while i < table.len()
        invariant
            i <= table@.len(),
            primary_language_of(locale@) == "ko"@,
            t == korean_catalog(),
            table@.map_values(|p: (&'static str, &'static str)| pair_view(p)) == t,
            catalog_lookup(t, code@) == catalog_lookup(t.skip(i as int), code@),
        decreases table@.len() - i,
    {
        let entry = table[i];
        proof {
            assert(t[i as int] == pair_view(entry));
            assert(t.skip(i as int).drop_first() == t.skip(i + 1));
        }
        if str_equal(entry.0, code) {
            assert(t.skip(i as int)[0] == t[i as int]);
            assert(t.skip(i as int)[0].0 == code@);
            assert(catalog_lookup(t.skip(i as int), code@) == Some(entry.1@));
            assert(localized(code@, locale@, fallback@) == entry.1@);
            return entry.1;
        }
        i = i + 1;
    }
    assert(t.skip(i as int).len() == 0);
    fallback
}


/// Splits characters on a separator (`str::split`).
pub fn split_chars(w: &Vec<char>, sep: char) -> (parts: Vec<Vec<char>>)
    ensures
        parts@.map_values(|x: Vec<char>| x@) == split_on(w@, sep),
        parts@.len() >= 1,
        forall|k: int| 0 <= k < parts@.len() ==> #[trigger] parts@[k]@ == split_on(w@, sep)[k],
{
    let mut done: Vec<Vec<char>> = Vec::new();
    let mut cur: Vec<char> = Vec::new();
    let mut j: usize = 0;
    while j < w.len()
        invariant
            j <= w@.len(),
            split_acc(w@.take(j as int), sep) == (done@.map_values(|x: Vec<char>| x@), cur@),
        decreases w@.len() - j,
    {
        let c = w[j];
        proof {
            assert(w@.take(j + 1).drop_last() == w@.take(j as int));
            assert(w@.take(j + 1).last() == c);
        }
        if c == sep {
            let finished = cur;
            cur = Vec::new();
            let ghost prev = done@;
            done.push(finished);
            proof {
                assert(done@.map_values(|x: Vec<char>| x@) =~= prev.map_values(|x: Vec<char>| x@).push(finished@));
            }
        } else {
            cur.push(c);
        }
        j = j + 1;
    }
    assert(w@.take(j as int) == w@);
    let ghost prev = done@;
    done.push(cur);
    proof {
        assert(done@.map_values(|x: Vec<char>| x@) =~= prev.map_values(|x: Vec<char>| x@).push(split_acc(w@, sep).1));
        assert forall|k: int| 0 <= k < done@.len() implies #[trigger] done@[k]@ == split_on(w@, sep)[k] by {
            assert(done@.map_values(|x: Vec<char>| x@)[k] == done@[k]@);
        }
    }
    done
}

/// A language range of an `Accept-Language` header: its position, its
/// canonical tag, and the values of its `q=` parameters in order.
#[derive(Clone, Debug, PartialEq, Eq)]
pub struct AcceptEntry {
    pub index: usize,
    pub locale: String,
    pub q_values: Vec<String>,
}

/// Whether a text starts with `q=`.
pub open spec fn is_q_param(p: Seq<char>) -> bool {
    p.len() >= 2 && p[0] == 'q' && p[1] == '='
}

/// The `q=` values among the parameters of a language range, trimmed, in order.
pub open spec fn q_values_of(params: Seq<Seq<char>>) -> Seq<Seq<char>>
    decreases params.len(),
{
    if params.len() == 0 {
        Seq::empty()
    } else {
        let rest = q_values_of(params.drop_last());
        let p = trimmed(params.last());
        if is_q_param(p) { rest.push(p.skip(2)) } else { rest }
    }
}

/// The language ranges of a header, in order: each comma-separated item
/// that is not blank and whose tag (before the first `;`) is a language tag.
pub open spec fn accept_entries_of(items: Seq<Seq<char>>) -> Seq<(int, Seq<char>, Seq<Seq<char>>)>
    decreases items.len(),
{
    if items.len() == 0 {
        Seq::empty()
    } else {
        let rest = accept_entries_of(items.drop_last());
        let raw = trimmed(items.last());
        let pieces = split_on(raw, ';');
        if raw.len() == 0 {
            rest
        } else {
            match normalized_locale(pieces[0]) {
                Some(l) => rest.push((items.len() - 1, l, q_values_of(pieces.skip(1)))),
                None => rest,
            }
        }
    }
}

pub open spec fn entry_view(e: AcceptEntry) -> (int, Seq<char>, Seq<Seq<char>>) {
    (e.index as int, e.locale@, e.q_values@.map_values(|q: String| q@))
}

fn q_params(pieces: &Vec<Vec<char>>) -> (qs: Vec<String>)
    requires
        pieces@.len() >= 1,
    ensures
        qs@.map_values(|q: String| q@) == q_values_of(pieces@.map_values(|x: Vec<char>| x@).skip(1)),
{
    let ghost ps = pieces@.map_values(|x: Vec<char>| x@);
    let mut qs: Vec<String> = Vec::new();
    let mut i: usize = 1;
    assert(ps.skip(1).take(0) =~= Seq::<Seq<char>>::empty());
    while i < pieces.len()
        invariant
            1 <= i <= pieces@.len(),
            ps == pieces@.map_values(|x: Vec<char>| x@),
            qs@.map_values(|q: String| q@) == q_values_of(ps.skip(1).take(i - 1)),
        decreases pieces@.len() - i,
    {
        let text = string_from_chars(&pieces[i]);
        let p = trim(text.as_str());
        let pv = chars_of(p.as_str());
        proof {
            assert(ps.skip(1).take(i as int).drop_last() == ps.skip(1).take(i - 1));
            assert(ps.skip(1).take(i as int).last() == pieces@[i as int]@);
        }
        if pv.len() >= 2 && pv[0] == 'q' && pv[1] == '=' {
            let mut out: Vec<char> = Vec::new();
            let mut k: usize = 2;
            while k < pv.len()
                invariant
                    2 <= k <= pv@.len(),
                    out@ == pv@.subrange(2, k as int),
                decreases pv@.len() - k,
            {
                out.push(pv[k]);
                proof {
                    assert(out@ =~= pv@.subrange(2, k + 1));
                }
                k = k + 1;
            }
            assert(out@ =~= pv@.skip(2));
            let ghost prev = qs@;
            qs.push(string_from_chars(&out));
            proof {
                assert(qs@.map_values(|q: String| q@) =~= prev.map_values(|q: String| q@).push(pv@.skip(2)));
            }
        }
        i = i + 1;
    }
    assert(ps.skip(1).take(i - 1) =~= ps.skip(1));
    qs
}

/// The language ranges of an `Accept-Language` header.
pub fn accept_language_entries(header: &str) -> (entries: Vec<AcceptEntry>)
    ensures
        entries@.map_values(|e: AcceptEntry| entry_view(e)) == accept_entries_of(
            split_on(header@, ','),
        ),
{
    let v = chars_of(header);
    let items = split_chars(&v, ',');
    let ghost its = split_on(header@, ',');
    let mut entries: Vec<AcceptEntry> = Vec::new();
    let mut i: usize = 0;
    while i < items.len()
        invariant
            i <= items@.len(),
            its == split_on(header@, ','),
            items@.map_values(|x: Vec<char>| x@) == its,
            forall|k: int| 0 <= k < items@.len() ==> #[trigger] items@[k]@ == its[k],
            entries@.map_values(|e: AcceptEntry| entry_view(e)) == accept_entries_of(its.take(i as int)),
        decreases items@.len() - i,
    {
        proof {
            assert(its.take(i + 1).drop_last() == its.take(i as int));
            assert(its.take(i + 1).last() == items@[i as int]@);
        }
        let text = string_from_chars(&items[i]);
        let raw = trim(text.as_str());
        if !raw.as_str().is_empty() {
            let rv = chars_of(raw.as_str());
            let pieces = split_chars(&rv, ';');
            let tag = string_from_chars(&pieces[0]);
            match normalize_locale(tag.as_str()) {
                Some(locale) => {
                    let q_values = q_params(&pieces);
                    let ghost prev = entries@;
                    let e = AcceptEntry { index: i, locale, q_values };
                    entries.push(e);
                    proof {
                        assert(pieces@.map_values(|x: Vec<char>| x@)[0] == pieces@[0]@);
                        assert(entries@.map_values(|x: AcceptEntry| entry_view(x)) =~= prev.map_values(|x: AcceptEntry| entry_view(x)).push(entry_view(e)));
                    }
                },
                None => {
                    proof {
                        assert(pieces@.map_values(|x: Vec<char>| x@)[0] == pieces@[0]@);
                    }
                },
            }
        }
        i = i + 1;
    }
    assert(its.take(i as int) == its);
    entries
}

/// A language range that is acceptable, with its quality as an ordered key
/// (larger is preferred).
#[derive(Clone, Debug, PartialEq, Eq)]
pub struct LocaleCandidate {
    pub locale: String,
    pub quality: u32,
}

/// The index of the first candidate with the highest quality.
pub open spec fn best_index(qs: Seq<u32>) -> int
    decreases qs.len(),
{
    if qs.len() <= 1 {
        0
    } else {
        let b = best_index(qs.drop_last());
        if qs.last() > qs[b] { qs.len() - 1 } else { b }
    }
}

/// The locale of the preferred candidate: the first with the highest
/// quality; the default when there is none.
pub fn select_locale(candidates: &Vec<LocaleCandidate>, default_locale: &str) -> (l: String)
    ensures
        candidates@.len() == 0 ==> l@ == default_locale@,
        candidates@.len() > 0 ==> l@ == candidates@[best_index(candidates@.map_values(|c: LocaleCandidate| c.quality))].locale@,
{
    if candidates.len() == 0 {
        return default_locale.to_string();
    }
    let ghost qs = candidates@.map_values(|c: LocaleCandidate| c.quality);
    let mut best: usize = 0;
    let mut i: usize = 1;
    assert(qs.take(1).len() == 1);
    while i < candidates.len()
        invariant
            1 <= i <= candidates@.len(),
            qs == candidates@.map_values(|c: LocaleCandidate| c.quality),
            best < i,
            best == best_index(qs.take(i as int)),
        decreases candidates@.len() - i,
    {
        proof {
            assert(qs.take(i + 1).drop_last() == qs.take(i as int));
            assert(qs.take(i as int)[best as int] == qs[best as int]);
        }
        if candidates[i].quality > candidates[best].quality {
            best = i;
        }
        i = i + 1;
    }
    assert(qs.take(i as int) == qs);
    candidates[best].locale.clone()
}

/// The preferred candidate has the highest quality, and every candidate
/// before it has a lower one: ties go to the earliest.
pub proof fn law_best_index_is_first_maximum(qs: Seq<u32>)
    requires
        qs.len() > 0,
    ensures
        0 <= best_index(qs) < qs.len(),
        forall|j: int| 0 <= j < qs.len() ==> #[trigger] qs[j] <= qs[best_index(qs)],
        forall|j: int| 0 <= j < best_index(qs) ==> #[trigger] qs[j] < qs[best_index(qs)],
    decreases qs.len(),
{
    if qs.len() > 1 {
        let prev = qs.drop_last();
        law_best_index_is_first_maximum(prev);
        let b = best_index(prev);
        assert(prev[b] == qs[b]);
        assert forall|j: int| 0 <= j < qs.len() - 1 implies #[trigger] qs[j] == prev[j] by {}
    }
}

/// The fields of an error body: the code, the localized message, and the
/// details when they are not blank and differ from the message (trimmed).
pub fn error_fields(code: &str, locale: &str, details: Option<&str>, fallback: &str) -> (r: (String, String, Option<String>))
    ensures
        r.0@ == code@,
        r.1@ == localized(code@, locale@, fallback@),
        match details {
            Some(d) if trimmed(d@).len() > 0 && trimmed(d@) != localized(code@, locale@, fallback@) => r.2 matches Some(x) && x@ == trimmed(d@),
            _ => r.2 is None,
        },
{
    let message = localized_message(code, locale, fallback);
    let extra = match details {
        Some(d) => {
            let t = trim(d);
            if t.as_str().is_empty() || crate::text::str_equal(t.as_str(), message) {
                None
            } else {
                Some(t)
            }
        },
        None => None,
    };
    (code.to_string(), message.to_string(), extra)
}

proof fn lemma_char_case(c: char)
    ensures
        to_lower(to_lower(c)) == to_lower(c),
        to_upper(to_upper(c)) == to_upper(c),
        is_ascii_alpha(to_lower(c)) == is_ascii_alpha(c),
        is_ascii_alpha(to_upper(c)) == is_ascii_alpha(c),
        is_ascii_digit(to_lower(c)) == is_ascii_digit(c),
        is_ascii_digit(to_upper(c)) == is_ascii_digit(c),
        (is_ascii_alpha(c) || is_ascii_digit(c)) ==> !is_ws(c) && c != '-' && c != '_',
{
}

/// Splitting a text on `-` and joining the pieces with `-` gives it back.
proof fn lemma_join_split(s: Seq<char>)
    ensures
        join_dash(split_on(s, '-')) == s,
    decreases s.len(),
{
    if s.len() == 0 {
        assert(split_on(s, '-') =~= seq![Seq::<char>::empty()]);
    } else {
        let s0 = s.drop_last();
        let c = s.last();
        lemma_join_split(s0);
        let (d, cur) = split_acc(s0, '-');
        assert(s0 == s.drop_last());
        if c == '-' {
            lemma_join_push(d.push(cur), Seq::empty());
            assert(s =~= s0 + seq!['-'] + Seq::<char>::empty());
        } else {
            lemma_join_push(d, cur.push(c));
            lemma_join_push(d, cur);
            if d.len() == 0 {
                assert(s =~= cur.push(c));
            } else {
                assert(s0 == join_dash(d) + seq!['-'] + cur);
                assert(s =~= s0.push(c));
                assert(s =~= join_dash(d) + seq!['-'] + cur.push(c));
            }
        }
    }
}

/// Whether a piece holds no `-`.
spec fn no_dash(p: Seq<char>) -> bool {
    forall|i: int| 0 <= i < p.len() ==> #[trigger] p[i] != '-'
}

/// Appending a piece without `-` extends the piece in progress.
proof fn lemma_split_acc_append(x: Seq<char>, p: Seq<char>)
    requires
        no_dash(p),
    ensures
        split_acc(x + p, '-') == (split_acc(x, '-').0, split_acc(x, '-').1 + p),
    decreases p.len(),
{
    if p.len() == 0 {
        assert(x + p =~= x);
        assert(split_acc(x, '-').1 + p =~= split_acc(x, '-').1);
    } else {
        let p0 = p.drop_last();
        assert(no_dash(p0)) by {
            assert forall|i: int| 0 <= i < p0.len() implies #[trigger] p0[i] != '-' by {
                assert(p0[i] == p[i]);
            }
        }
        lemma_split_acc_append(x, p0);
        assert((x + p).drop_last() =~= x + p0);
        assert((x + p).last() == p.last());
        assert(p.last() == p[p.len() - 1]);
        assert(split_acc(x, '-').1 + p0 + seq![p.last()] =~= split_acc(x, '-').1 + p);
    }
}

/// Joining pieces without `-` and splitting the result gives the pieces back.
proof fn lemma_split_join(q: Seq<Seq<char>>)
    requires
        q.len() >= 1,
        forall|i: int| 0 <= i < q.len() ==> no_dash(#[trigger] q[i]),
    ensures
        split_on(join_dash(q), '-') == q,
    decreases q.len(),
{
    if q.len() == 1 {
        assert(no_dash(q[0]));
        lemma_split_acc_append(Seq::empty(), q[0]);
        assert(Seq::<char>::empty() + q[0] =~= q[0]);
        assert(Seq::<char>::empty() + q[0] =~= q[0]);
        assert(split_on(join_dash(q), '-') =~= q);
    } else {
        let r = q.drop_last();
        let p = q.last();
        assert forall|i: int| 0 <= i < r.len() implies no_dash(#[trigger] r[i]) by {
            assert(r[i] == q[i]);
        }
        lemma_split_join(r);
        assert(no_dash(q[q.len() - 1]));
        let jr = join_dash(r);
        assert(join_dash(q) == jr + seq!['-'] + p);
        assert(jr + seq!['-'] + p =~= jr.push('-') + p);
        lemma_split_acc_append(jr.push('-'), p);
        assert(jr.push('-').drop_last() =~= jr);
        assert(split_acc(jr.push('-'), '-') == (split_on(jr, '-'), Seq::<char>::empty()));
        assert(Seq::<char>::empty() + p =~= p);
        assert(split_on(join_dash(q), '-') =~= q);
    }
}

/// Pieces of the same lengths join to texts of the same length.
proof fn lemma_join_len(p: Seq<Seq<char>>, q: Seq<Seq<char>>)
    requires
        p.len() == q.len(),
        forall|i: int| 0 <= i < p.len() ==> (#[trigger] p[i]).len() == q[i].len(),
    ensures
        join_dash(q).len() == join_dash(p).len(),
    decreases p.len(),
{
    if p.len() > 1 {
        let p0 = p.drop_last();
        let q0 = q.drop_last();
        assert forall|i: int| 0 <= i < p0.len() implies (#[trigger] p0[i]).len() == q0[i].len() by {
            assert(p0[i] == p[i]);
            assert(q0[i] == q[i]);
        }
        lemma_join_len(p0, q0);
        assert(p[p.len() - 1].len() == q[q.len() - 1].len());
    } else if p.len() == 1 {
        assert(p[0].len() == q[0].len());
    }
}

pub open spec fn alnum_char(c: char) -> bool {
    is_ascii_alpha(c) || is_ascii_digit(c)
}

/// Joining pieces of letters and digits gives a text of letters, digits and
/// `-`; it starts with the first piece and ends with the last.
proof fn lemma_join_chars(q: Seq<Seq<char>>)
    requires
        q.len() >= 1,
        forall|i: int| 0 <= i < q.len() ==> (#[trigger] q[i]).len() >= 1 && all_alnum(q[i]),
    ensures
        join_dash(q).len() >= 1,
        forall|k: int| 0 <= k < join_dash(q).len() ==> alnum_char(#[trigger] join_dash(q)[k]) || join_dash(q)[k] == '-',
        join_dash(q)[0] == q[0][0],
        join_dash(q).last() == q.last().last(),
    decreases q.len(),
{
    assert(q[0].len() >= 1 && all_alnum(q[0]));
    assert(q[q.len() - 1].len() >= 1 && all_alnum(q[q.len() - 1]));
    if q.len() == 1 {
        assert forall|k: int| 0 <= k < join_dash(q).len() implies alnum_char(#[trigger] join_dash(q)[k]) || join_dash(q)[k] == '-' by {
            assert(is_ascii_alpha(q[0][k]) || is_ascii_digit(q[0][k]));
        }
    } else {
        let r = q.drop_last();
        let p = q.last();
        assert forall|i: int| 0 <= i < r.len() implies (#[trigger] r[i]).len() >= 1 && all_alnum(r[i]) by {
            assert(r[i] == q[i]);
        }
        lemma_join_chars(r);
        let jr = join_dash(r);
        let t = join_dash(q);
        assert(t == jr + seq!['-'] + p);
        assert forall|k: int| 0 <= k < t.len() implies alnum_char(#[trigger] t[k]) || t[k] == '-' by {
            if k < jr.len() {
                assert(t[k] == jr[k]);
            } else if k == jr.len() {
                assert(t[k] == '-');
            } else {
                assert(t[k] == p[k - jr.len() - 1]);
                assert(is_ascii_alpha(p[k - jr.len() - 1]) || is_ascii_digit(p[k - jr.len() - 1]));
            }
        }
        assert(t[0] == jr[0]);
        assert(r[0] == q[0]);
        assert(t.last() == p.last());
    }
}

/// Case mapping keeps a piece's length and which of its characters are
/// letters and digits, and mapping twice is mapping once.
proof fn lemma_case_seq(p: Seq<char>)
    ensures
        lower(p).len() == p.len(),
        upper(p).len() == p.len(),
        all_alpha(lower(p)) == all_alpha(p),
        all_alpha(upper(p)) == all_alpha(p),
        all_digit(lower(p)) == all_digit(p),
        all_digit(upper(p)) == all_digit(p),
        all_alnum(lower(p)) == all_alnum(p),
        all_alnum(upper(p)) == all_alnum(p),
        lower(lower(p)) == lower(p),
        upper(upper(p)) == upper(p),
{
    assert forall|i: int| 0 <= i < p.len() implies #[trigger] lower(p)[i] == to_lower(p[i]) && upper(p)[i] == to_upper(p[i]) by {}
    assert forall|i: int| 0 <= i < p.len() implies {
        &&& is_ascii_alpha(#[trigger] lower(p)[i]) == is_ascii_alpha(p[i])
        &&& is_ascii_alpha(upper(p)[i]) == is_ascii_alpha(p[i])
        &&& is_ascii_digit(lower(p)[i]) == is_ascii_digit(p[i])
        &&& is_ascii_digit(upper(p)[i]) == is_ascii_digit(p[i])
    } by {
        lemma_char_case(p[i]);
    }
    if all_alpha(p) {
        assert forall|i: int| 0 <= i < p.len() implies is_ascii_alpha(#[trigger] lower(p)[i]) by {
            assert(is_ascii_alpha(p[i]));
        }
        assert forall|i: int| 0 <= i < p.len() implies is_ascii_alpha(#[trigger] upper(p)[i]) by {
            assert(is_ascii_alpha(p[i]));
        }
    }
    if all_alpha(lower(p)) {
        assert forall|i: int| 0 <= i < p.len() implies is_ascii_alpha(#[trigger] p[i]) by {
            assert(is_ascii_alpha(lower(p)[i]));
        }
    }
    if all_alpha(upper(p)) {
        assert forall|i: int| 0 <= i < p.len() implies is_ascii_alpha(#[trigger] p[i]) by {
            assert(is_ascii_alpha(upper(p)[i]));
        }
    }
    if all_digit(p) {
        assert forall|i: int| 0 <= i < p.len() implies is_ascii_digit(#[trigger] lower(p)[i]) by {
            assert(is_ascii_digit(p[i]));
        }
        assert forall|i: int| 0 <= i < p.len() implies is_ascii_digit(#[trigger] upper(p)[i]) by {
            assert(is_ascii_digit(p[i]));
        }
    }
    if all_digit(lower(p)) {
        assert forall|i: int| 0 <= i < p.len() implies is_ascii_digit(#[trigger] p[i]) by {
            assert(is_ascii_digit(lower(p)[i]));
        }
    }
    if all_digit(upper(p)) {
        assert forall|i: int| 0 <= i < p.len() implies is_ascii_digit(#[trigger] p[i]) by {
            assert(is_ascii_digit(upper(p)[i]));
        }
    }
    if all_alnum(p) {
        assert forall|i: int| 0 <= i < p.len() implies is_ascii_alpha(#[trigger] lower(p)[i]) || is_ascii_digit(lower(p)[i]) by {
            assert(is_ascii_alpha(p[i]) || is_ascii_digit(p[i]));
        }
        assert forall|i: int| 0 <= i < p.len() implies is_ascii_alpha(#[trigger] upper(p)[i]) || is_ascii_digit(upper(p)[i]) by {
            assert(is_ascii_alpha(p[i]) || is_ascii_digit(p[i]));
        }
    }
    if all_alnum(lower(p)) {
        assert forall|i: int| 0 <= i < p.len() implies is_ascii_alpha(#[trigger] p[i]) || is_ascii_digit(p[i]) by {
            assert(is_ascii_alpha(lower(p)[i]) || is_ascii_digit(lower(p)[i]));
        }
    }
    if all_alnum(upper(p)) {
        assert forall|i: int| 0 <= i < p.len() implies is_ascii_alpha(#[trigger] p[i]) || is_ascii_digit(p[i]) by {
            assert(is_ascii_alpha(upper(p)[i]) || is_ascii_digit(upper(p)[i]));
        }
    }
    assert forall|i: int| 0 <= i < p.len() implies #[trigger] lower(lower(p))[i] == lower(p)[i] && upper(upper(p))[i] == upper(p)[i] by {
        lemma_char_case(p[i]);
    }
    assert(lower(lower(p)) =~= lower(p));
    assert(upper(upper(p)) =~= upper(p));
}

/// The canonical case of a subtag keeps its length and its letters and
/// digits, and is already canonical.
proof fn lemma_canonical_subtag(p: Seq<char>)
    ensures
        canonical_subtag(p).len() == p.len(),
        all_alnum(canonical_subtag(p)) == all_alnum(p),
        canonical_subtag(canonical_subtag(p)) == canonical_subtag(p),
{
    lemma_case_seq(p);
    let c = canonical_subtag(p);
    if p.len() == 4 && all_alpha(p) {
        let rest = p.skip(1);
        lemma_case_seq(rest);
        lemma_char_case(p[0]);
        let head = to_upper(p[0]);
        assert(c == seq![head] + lower(rest));
        assert(c.len() == 4);
        assert forall|i: int| 0 <= i < c.len() implies is_ascii_alpha(#[trigger] c[i]) by {
            if i == 0 {
                assert(c[0] == head);
            } else {
                assert(c[i] == lower(rest)[i - 1]);
                assert(rest[i - 1] == p[i]);
                assert(is_ascii_alpha(p[i]));
                lemma_char_case(rest[i - 1]);
            }
        }
        assert(all_alnum(p));
        assert forall|i: int| 0 <= i < c.len() implies is_ascii_alpha(#[trigger] c[i]) || is_ascii_digit(c[i]) by {}
        assert(c.skip(1) =~= lower(rest));
        assert(c[0] == head);
        lemma_char_case(head);
        assert(canonical_subtag(c) =~= c);
    } else if (p.len() == 2 && all_alpha(p)) || (p.len() == 3 && all_digit(p)) {
        assert(c == upper(p));
        lemma_case_seq(c);
    } else {
        assert(c == lower(p));
        lemma_case_seq(c);
    }
}

/// A text that starts and ends with a character that is not white space is
/// its own trimmed form.
proof fn lemma_trimmed_unchanged(t: Seq<char>)
    requires
        t.len() >= 1,
        !is_ws(t[0]),
        !is_ws(t.last()),
    ensures
        trimmed(t) == t,
{
    assert(trim_start(t) == t);
    assert(trim_end(t) == t);
}

/// The canonical form of a language tag is its own canonical form. It is
/// one to 35 characters long, holds no `_`, has no white space at either
/// end, and its first subtag is two or three ASCII letters in lower case.
pub proof fn law_normalized_locale_is_fixed_point(input: Seq<char>)
    requires
        normalized_locale(input) is Some,
    ensures
        normalized_locale(normalized_locale(input)->0) == normalized_locale(input),
        1 <= normalized_locale(input)->0.len() <= 35,
        forall|k: int| 0 <= k < normalized_locale(input)->0.len()
            ==> #[trigger] normalized_locale(input)->0[k] != '_',
        trimmed(normalized_locale(input)->0) == normalized_locale(input)->0,
        2 <= split_on(normalized_locale(input)->0, '-')[0].len() <= 3,
        all_alpha(split_on(normalized_locale(input)->0, '-')[0]),
        lower(split_on(normalized_locale(input)->0, '-')[0]) == split_on(normalized_locale(input)->0, '-')[0],
{
    let n = dashes(trimmed(input));
    let parts = split_on(n, '-');
    let q = Seq::new(
        parts.len(),
        |i: int| if i == 0 { lower(parts[0]) } else { canonical_subtag(parts[i]) },
    );
    let t = join_dash(q);
    assert(normalized_locale(input) == Some(t));
    assert(forall|i: int| 1 <= i < parts.len() ==> subtag_ok(#[trigger] parts[i]));
    lemma_case_seq(parts[0]);
    assert forall|i: int| 0 <= i < q.len() implies (#[trigger] q[i]).len() == parts[i].len() && q[i].len() >= 1
        && all_alnum(q[i]) && no_dash(q[i]) by {
        if i == 0 {
            assert(all_alpha(q[0]));
            assert forall|k: int| 0 <= k < q[0].len() implies is_ascii_alpha(#[trigger] q[0][k]) || is_ascii_digit(q[0][k]) by {
                assert(is_ascii_alpha(q[0][k]));
            }
        } else {
            assert(subtag_ok(parts[i]));
            lemma_canonical_subtag(parts[i]);
        }
        assert forall|k: int| 0 <= k < q[i].len() implies #[trigger] q[i][k] != '-' by {
            assert(is_ascii_alpha(q[i][k]) || is_ascii_digit(q[i][k]));
        }
    }
    lemma_join_split(n);
    lemma_join_len(parts, q);
    lemma_join_chars(q);
    lemma_split_join(q);
    assert(alnum_char(t[0]) || t[0] == '-');
    assert(t[0] == q[0][0]);
    assert(is_ascii_alpha(q[0][0]) || is_ascii_digit(q[0][0]));
    lemma_char_case(t[0]);
    assert(t.last() == q.last().last());
    let lq = q[q.len() - 1];
    assert(is_ascii_alpha(lq[lq.len() - 1]) || is_ascii_digit(lq[lq.len() - 1]));
    lemma_char_case(t.last());
    lemma_trimmed_unchanged(t);
    assert forall|k: int| 0 <= k < t.len() implies #[trigger] t[k] != '_' by {
        assert(alnum_char(t[k]) || t[k] == '-');
    }
    assert(dashes(t) =~= t);
    let n2 = dashes(trimmed(t));
    assert(n2 == t);
    assert(split_on(n2, '-') == q);
    assert(q[0] == lower(parts[0]));
    assert(!(exists|i: int| 1 <= i < q.len() && !subtag_ok(#[trigger] q[i])));
    let q2 = Seq::new(
        q.len(),
        |i: int| if i == 0 { lower(q[0]) } else { canonical_subtag(q[i]) },
    );
    assert forall|i: int| 0 <= i < q.len() implies #[trigger] q2[i] == q[i] by {
        if i > 0 {
            lemma_canonical_subtag(parts[i]);
        }
    }
    assert(q2 =~= q);
    assert(t.len() == n.len());
    lemma_case_seq(q[0]);
}

} // verus!
