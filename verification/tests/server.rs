use paw::server::admin::{
    agent_action_decision, page_window, validate_spam_keyword, AdminRole, AdminUserListQuery,
    AgentActionResponse, AgentAdminAction, AuditLogQuery,
};
use paw::server::channels::{
    channel_history_access, history_page, history_window, validate_channel_creation, ChannelAccess,
    GetChannelMessagesQuery,
};
use paw::server::agents::{
    delegation_membership_decision, delegation_precheck, generate_agent_token,
    generate_agent_token_pair, hash_token, is_valid_agent_token_format, normalize_permissions,
    parse_permissions, agent_inbound_subject, agent_session_after_subscribe, AgentPermission,
    AgentSessionStep, agent_socket_after_lookup, agent_socket_token, invite_agent_answer,
    invite_manage_gate, invite_membership_gate, AgentSocketStart, InviteAgentResponse,
    InviteOutcome, Membership,
};
use paw::server::auth::{
    access_decision, access_token_claims, bearer_token, verify_otp_after_lookup,
    verify_otp_after_mark, verify_otp_session_answer, DeviceId, OtpCodeRow, UserId, VerifyOtpStep, check_token_type, generate_otp,
    is_token_issued_before_revocation, otp_expires_at, otp_usable, parse_fixed_otp, revocation_decision, session_token_claims,
    AuthorizationHeader, UserRevocation, TOKEN_TYPE_ACCESS,
};
use paw::server::failure::{failure, lookup_answer, update_answer};
use paw::server::i18n::{
    accept_language_entries, error_fields, localized_message, normalize_locale, select_locale,
    LocaleCandidate,
};
use paw::server::misc::{
    backup_object_key, delete_backup_decision, delete_device_decision, frequency_from_stored,
    restore_backup_decision, BackupFrequency, RestoreBackupResponse, POOL_ACQUIRE_TIMEOUT_SECS, POOL_IDLE_TIMEOUT_SECS, POOL_MAX_CONNECTIONS, POOL_MIN_CONNECTIONS,
};
use paw::server::otp_guard::OtpAttemptGuard;
use paw::server::relay::{AgentFrame, RelayAction, RelayError, StreamRelay, MAX_STREAM_BYTES};

/// The header's acceptable ranges with their parsed quality, as the server
/// reads them: a `q=` value that does not parse or lies outside [0, 1] drops
/// the range, and so does a quality of zero.
fn resolve_locale(accept_language: Option<&str>, default_locale: &str) -> String {
    let mut candidates: Vec<LocaleCandidate> = Vec::new();
    if let Some(header) = accept_language {
        for entry in accept_language_entries(header) {
            let mut quality = 1.0_f32;
            let mut invalid = false;
            for q in &entry.q_values {
                match q.parse::<f32>() {
                    Ok(parsed) if (0.0..=1.0).contains(&parsed) => quality = parsed,
                    _ => {
                        invalid = true;
                        break;
                    }
                }
            }
            if invalid || quality <= 0.0 {
                continue;
            }
            candidates.push(LocaleCandidate { locale: entry.locale, quality: quality.to_bits() });
        }
    }
    select_locale(&candidates, default_locale)
}

#[test]
fn admin_role_ordering() {
    assert!(AdminRole::SuperAdmin > AdminRole::Admin);
    assert!(AdminRole::Admin > AdminRole::Moderator);
}

#[test]
fn admin_role_from_str() {
    assert_eq!(AdminRole::from_str("moderator"), Some(AdminRole::Moderator));
    assert_eq!(AdminRole::from_str("admin"), Some(AdminRole::Admin));
    assert_eq!(AdminRole::from_str("super_admin"), Some(AdminRole::SuperAdmin));
    assert_eq!(AdminRole::from_str("user"), None);
    assert_eq!(AdminRole::from_str(""), None);
}

#[test]
fn admin_role_levels_include_lower_roles() {
    assert_eq!(AdminRole::Moderator.level(), 1);
    assert_eq!(AdminRole::SuperAdmin.level(), 3);
    assert!(AdminRole::Admin.includes(AdminRole::Moderator));
    assert!(!AdminRole::Moderator.includes(AdminRole::Admin));
}

#[test]
fn user_list_query_defaults() {
    let q = AdminUserListQuery::defaults();
    assert_eq!(q.page, 1);
    assert_eq!(q.limit, 20);
    assert!(q.search.is_none());
}

#[test]
fn normalize_permissions_deduplicates_preserving_order() {
    let normalized = normalize_permissions(&vec![
        AgentPermission::ReadMessages,
        AgentPermission::SendMessages,
        AgentPermission::ReadMessages,
        AgentPermission::UseTools,
        AgentPermission::SendMessages,
    ]);

    assert_eq!(
        normalized,
        vec![
            AgentPermission::ReadMessages,
            AgentPermission::SendMessages,
            AgentPermission::UseTools,
        ]
    );
}

#[test]
fn generated_token_pair_matches_hash() {
    let (raw_token, token_hash) = generate_agent_token_pair();
    assert!(is_valid_agent_token_format(&raw_token));
    assert_eq!(token_hash, hash_token(&raw_token));
}

#[test]
fn generated_token_pair_is_unique_per_rotation() {
    let (raw_a, hash_a) = generate_agent_token_pair();
    let (raw_b, hash_b) = generate_agent_token_pair();

    assert_ne!(raw_a, raw_b);
    assert_ne!(hash_a, hash_b);
}

#[test]
fn hash_token_is_sha256_hex() {
    assert_eq!(
        hash_token("abc"),
        "ba7816bf8f01cfea414140de5dae2223b00361a396177a9cb410ff61f20015ad"
    );
}

#[test]
fn valid_token_format() {
    let token = format!("paw_agent_{}", uuid::Uuid::new_v4());
    assert!(is_valid_agent_token_format(&token));
}

#[test]
fn rejects_missing_prefix() {
    let token = format!("agent_{}", uuid::Uuid::new_v4());
    assert!(!is_valid_agent_token_format(&token));
}

#[test]
fn rejects_wrong_prefix() {
    let token = format!("paw_bot_{}", uuid::Uuid::new_v4());
    assert!(!is_valid_agent_token_format(&token));
}

#[test]
fn rejects_non_uuid_suffix() {
    assert!(!is_valid_agent_token_format("paw_agent_not-a-uuid"));
}

#[test]
fn rejects_empty_string() {
    assert!(!is_valid_agent_token_format(""));
}

#[test]
fn generated_token_passes_validation() {
    let token = generate_agent_token();
    assert!(is_valid_agent_token_format(&token));
}

#[test]
fn token_before_revocation_is_rejected() {
    let revoked_at: i64 = 1_700_000_000;
    assert!(is_token_issued_before_revocation(revoked_at - 5, Some(revoked_at)));
}

#[test]
fn token_after_revocation_is_allowed() {
    let revoked_at: i64 = 1_700_000_000;
    assert!(!is_token_issued_before_revocation(revoked_at + 5, Some(revoked_at)));
}

#[test]
fn token_without_revocation_is_allowed() {
    assert!(!is_token_issued_before_revocation(1_700_000_000, None));
}

#[test]
fn fixed_otp_is_used_when_valid() {
    assert_eq!(parse_fixed_otp("137900").as_deref(), Some("137900"));
}

#[test]
fn invalid_fixed_otp_is_ignored() {
    assert_eq!(parse_fixed_otp("abc"), None);
    assert_eq!(parse_fixed_otp("12345"), None);
    assert_eq!(parse_fixed_otp("1234567"), None);
}

#[test]
fn generated_otp_is_six_digits() {
    assert_eq!(generate_otp(Some("654321")), "654321");
    let code = generate_otp(Some("bad"));
    assert_eq!(code.len(), 6);
    assert!(code.chars().all(|c| c.is_ascii_digit()));
}

#[test]
fn success_after_valid_otp_resets_counter() {
    let mut guard = OtpAttemptGuard::new(5, 15 * 60 * 1000);
    let start: i64 = 1_700_000_000_000;
    assert_eq!(guard.record_failure_at("+821012345678", "1.2.3.4", start), None);
    assert_eq!(guard.record_failure_at("+821012345678", "1.2.3.4", start + 1000), None);
    guard.reset_phone("+821012345678");
    assert_eq!(guard.retry_after_seconds_at("+821012345678", start), None);
}

#[test]
fn lock_after_five_failures() {
    let mut guard = OtpAttemptGuard::new(5, 15 * 60 * 1000);
    let start: i64 = 1_700_000_000_000;
    for i in 0..4i64 {
        assert_eq!(guard.record_failure_at("+821055555555", "9.9.9.9", start + i * 1000), None);
    }
    let retry_after = guard
        .record_failure_at("+821055555555", "9.9.9.9", start + 4000)
        .expect("fifth failure should lock");
    assert_eq!(retry_after, 900);
}

#[test]
fn unlock_after_cooldown() {
    let mut guard = OtpAttemptGuard::new(5, 15 * 60 * 1000);
    let start: i64 = 1_700_000_000_000;
    for i in 0..5i64 {
        guard.record_failure_at("+821066666666", "8.8.8.8", start + i * 1000);
    }
    assert!(guard.retry_after_seconds_at("+821066666666", start + 5 * 60 * 1000).is_some());
    assert_eq!(guard.retry_after_seconds_at("+821066666666", start + 16 * 60 * 1000), None);
}

#[test]
fn repeated_failures_from_one_ip_mark_it_suspicious() {
    let mut guard = OtpAttemptGuard::new(5, 15 * 60 * 1000);
    let start: i64 = 1_700_000_000_000;
    for i in 0..5i64 {
        let phone = format!("+8210000000{}", i);
        guard.record_failure_at(&phone, "7.7.7.7", start + i);
    }
    assert_eq!(guard.ip_failures("7.7.7.7"), 5);
    assert!(guard.is_suspicious_ip("7.7.7.7"));
    assert!(!guard.is_suspicious_ip("6.6.6.6"));
}

#[test]
fn pool_config_constants_match_performance_targets() {
    assert_eq!(POOL_MAX_CONNECTIONS, 20);
    assert_eq!(POOL_MIN_CONNECTIONS, 5);
    assert_eq!(POOL_ACQUIRE_TIMEOUT_SECS, 30);
    assert_eq!(POOL_IDLE_TIMEOUT_SECS, 600);
}

#[test]
fn normalize_locale_canonicalizes_common_tags() {
    assert_eq!(normalize_locale(" ko_kr "), Some("ko-KR".to_string()));
    assert_eq!(normalize_locale("en-us"), Some("en-US".to_string()));
    assert_eq!(normalize_locale("zh-hant-tw"), Some("zh-Hant-TW".to_string()));
}

#[test]
fn normalize_locale_rejects_invalid_tags() {
    assert_eq!(normalize_locale(""), None);
    assert_eq!(normalize_locale("k"), None);
    assert_eq!(normalize_locale("ko-한글"), None);
    assert_eq!(normalize_locale("ko--KR"), None);
}

#[test]
fn resolve_locale_prefers_first_valid_header_entry() {
    let resolved = resolve_locale(Some("fr-CA,ko-KR;q=0.8,en;q=0.5"), "ko-KR");
    assert_eq!(resolved, "fr-CA");
}

#[test]
fn resolve_locale_respects_quality_values() {
    let resolved = resolve_locale(Some("en;q=0.5, ko-KR;q=1.0"), "fr-FR");
    assert_eq!(resolved, "ko-KR");
}

#[test]
fn resolve_locale_ignores_zero_quality_and_invalid_q_values() {
    let resolved = resolve_locale(Some("en;q=0, ko;q=bogus, ja;q=0.8"), "fr-FR");
    assert_eq!(resolved, "ja");
}

#[test]
fn resolve_locale_falls_back_to_default() {
    assert_eq!(resolve_locale(None, "ko-KR"), "ko-KR");
    assert_eq!(resolve_locale(Some("***"), "ko-KR"), "ko-KR");
}

#[test]
fn accept_language_entries_keep_positions_and_q_values() {
    let entries = accept_language_entries("fr-ca, ***, ko;q=0.5;x=1");
    assert_eq!(entries.len(), 2);
    assert_eq!(entries[0].index, 0);
    assert_eq!(entries[0].locale, "fr-CA");
    assert!(entries[0].q_values.is_empty());
    assert_eq!(entries[1].index, 2);
    assert_eq!(entries[1].locale, "ko");
    assert_eq!(entries[1].q_values, vec!["0.5".to_string()]);
}

#[test]
fn select_locale_takes_first_of_highest_quality() {
    let c = |l: &str, q: u32| LocaleCandidate { locale: l.to_string(), quality: q };
    assert_eq!(select_locale(&vec![c("a", 3), c("b", 5), c("c", 5)], "d"), "b");
    assert_eq!(select_locale(&vec![], "d"), "d");
}

#[test]
fn localized_message_returns_korean_when_available() {
    assert_eq!(
        localized_message("user_not_found", "ko-KR", "User not found"),
        "사용자를 찾을 수 없습니다"
    );
    assert_eq!(
        localized_message("user_not_found", "en-US", "User not found"),
        "User not found"
    );
}

#[test]
fn error_response_uses_localized_message() {
    let (code, message, details) =
        error_fields("invalid_phone", "ko-KR", None, "Phone number must be E.164 format");
    assert_eq!(code, "invalid_phone");
    assert_eq!(message, "전화번호는 E.164 형식이어야 합니다");
    assert_eq!(details, None);
}

#[test]
fn error_response_preserves_dynamic_details() {
    let (_, message, details) = error_fields(
        "invalid_manifest",
        "ko-KR",
        Some("manifest.version must be >= 1"),
        "manifest.version must be >= 1",
    );
    assert_eq!(message, "매니페스트가 올바르지 않습니다");
    assert_eq!(details, Some("manifest.version must be >= 1".to_string()));
}

#[test]
fn relay_starts_counts_and_ends_a_stream() {
    let mut relay = StreamRelay::new(7);
    let start = AgentFrame::StreamStart {
        v: 1,
        agent_id: 7,
        stream_id: 100,
        conversation_id: 55,
        thread_id: None,
    };
    let actions = relay.relay(&start, 10, 0).unwrap();
    assert_eq!(
        actions,
        vec![
            RelayAction::SendFrame { conversation_id: 55 },
            RelayAction::Typing { conversation_id: 55, thread_id: None, agent_id: 7, active: true },
        ]
    );
    assert_eq!(relay.active_count(), 1);
    let delta = AgentFrame::ContentDelta { v: 1, stream_id: 100, delta_len: 5 };
    assert_eq!(relay.relay(&delta, 20, 1).unwrap(), vec![RelayAction::SendFrame { conversation_id: 55 }]);
    let end = AgentFrame::StreamEnd { v: 1, stream_id: 100 };
    assert_eq!(
        relay.relay(&end, 5, 2).unwrap(),
        vec![
            RelayAction::SendFrame { conversation_id: 55 },
            RelayAction::Typing { conversation_id: 55, thread_id: None, agent_id: 7, active: false },
        ]
    );
    assert_eq!(relay.active_count(), 0);
}

#[test]
fn relay_refuses_wrong_version_agent_and_oversized_start() {
    let mut relay = StreamRelay::new(7);
    let bad_v = AgentFrame::StreamEnd { v: 2, stream_id: 1 };
    assert_eq!(relay.relay(&bad_v, 1, 0), Err(RelayError::UnsupportedVersion(2)));
    let other = AgentFrame::AgentTypingStart { v: 1, agent_id: 8, conversation_id: 1, thread_id: None };
    assert_eq!(relay.relay(&other, 1, 0), Err(RelayError::AgentMismatch));
    let start = AgentFrame::StreamStart {
        v: 1,
        agent_id: 7,
        stream_id: 1,
        conversation_id: 2,
        thread_id: None,
    };
    assert_eq!(
        relay.relay(&start, MAX_STREAM_BYTES + 1, 0),
        Err(RelayError::FrameTooLarge(MAX_STREAM_BYTES + 1))
    );
}

#[test]
fn relay_cuts_off_stream_over_byte_bound() {
    let mut relay = StreamRelay::new(7);
    let start = AgentFrame::StreamStart {
        v: 1,
        agent_id: 7,
        stream_id: 1,
        conversation_id: 2,
        thread_id: Some(3),
    };
    relay.relay(&start, MAX_STREAM_BYTES, 0).unwrap();
    let delta = AgentFrame::ContentDelta { v: 1, stream_id: 1, delta_len: 1 };
    assert_eq!(
        relay.relay(&delta, 1, 2_000_000).unwrap(),
        vec![
            RelayAction::SendStreamEnd { conversation_id: 2, stream_id: 1, duration_ms: 2 },
            RelayAction::Typing { conversation_id: 2, thread_id: Some(3), agent_id: 7, active: false },
        ]
    );
    assert_eq!(relay.active_count(), 0);
}

#[test]
fn audit_log_query_defaults() {
    let q = AuditLogQuery::defaults();
    assert_eq!(q.page, 1);
    assert_eq!(q.limit, 20);
    assert!(q.actor_id.is_none());
}

#[test]
fn page_window_caps_limit_and_skips_earlier_pages() {
    assert_eq!(page_window(1, 20), (20, 0));
    assert_eq!(page_window(3, 20), (20, 40));
    assert_eq!(page_window(0, 500), (100, 0));
    assert_eq!(page_window(-4, 10), (10, 0));
}

#[test]
fn spam_keyword_is_trimmed_and_required() {
    assert_eq!(validate_spam_keyword("  spam  ").unwrap(), "spam");
    let f = validate_spam_keyword("   ").unwrap_err();
    assert_eq!((f.status, f.code), (400, "invalid_keyword"));
}

#[test]
fn agent_action_answers() {
    assert_eq!(
        agent_action_decision(AgentAdminAction::Approve, Some(true)),
        Ok(AgentActionResponse { success: true })
    );
    let f = agent_action_decision(AgentAdminAction::Approve, Some(false)).unwrap_err();
    assert_eq!((f.status, f.fallback), (404, "Agent not found or already public"));
    let f = agent_action_decision(AgentAdminAction::Reject, Some(false)).unwrap_err();
    assert_eq!(f.fallback, "Agent not found");
    let f = agent_action_decision(AgentAdminAction::Deactivate, None).unwrap_err();
    assert_eq!((f.status, f.fallback), (500, "Could not deactivate agent"));
}

#[test]
fn bearer_token_is_taken_from_the_header() {
    assert_eq!(bearer_token(&AuthorizationHeader::Text("Bearer abc.def".into())).unwrap(), "abc.def");
    assert_eq!(bearer_token(&AuthorizationHeader::Missing).unwrap_err().code, "missing_authorization");
    assert_eq!(
        bearer_token(&AuthorizationHeader::Unreadable).unwrap_err().fallback,
        "Authorization header is invalid"
    );
    assert_eq!(
        bearer_token(&AuthorizationHeader::Text("Basic abc".into())).unwrap_err().fallback,
        "Expected Bearer token"
    );
    assert_eq!(bearer_token(&AuthorizationHeader::Text("Bearer".into())).unwrap_err().status, 401);
}

#[test]
fn token_claims_carry_type_and_lifetime() {
    let c = access_token_claims(7, Some(9), 1_000);
    assert_eq!(c.token_type, TOKEN_TYPE_ACCESS);
    assert_eq!(c.exp, 1_000 + 604_800);
    assert_eq!(c.device_id, Some(9));
    let s = session_token_claims(7, 1_000);
    assert_eq!(s.token_type, "session");
    assert_eq!(s.exp, 1_900);
    assert_eq!(s.device_id, None);
}

#[test]
fn token_type_and_revocation_checks() {
    let c = access_token_claims(7, None, 1_000);
    assert_eq!(check_token_type(c.clone(), Some("access")), Ok(c.clone()));
    assert_eq!(check_token_type(c.clone(), None), Ok(c.clone()));
    assert_eq!(check_token_type(c.clone(), Some("refresh")), Err("invalid token type".to_string()));
    assert_eq!(revocation_decision(c.clone(), None), Err("invalid token".to_string()));
    let live = UserRevocation { token_revoked_at: Some(999), deleted: false };
    assert_eq!(revocation_decision(c.clone(), Some(live)), Ok(c.clone()));
    let revoked = UserRevocation { token_revoked_at: Some(1_001), deleted: false };
    assert_eq!(revocation_decision(c.clone(), Some(revoked)), Err("token revoked".to_string()));
    let deleted = UserRevocation { token_revoked_at: None, deleted: true };
    assert_eq!(revocation_decision(c, Some(deleted)), Err("token revoked".to_string()));
}

#[test]
fn delegation_checks_task_agents_and_membership() {
    assert_eq!(delegation_precheck("  summarize  ", 1, 2), Ok("summarize".to_string()));
    assert_eq!(delegation_precheck("   ", 1, 2), Err("invalid_task_description"));
    assert_eq!(delegation_precheck("task", 3, 3), Err("same_agent"));
    assert_eq!(delegation_membership_decision(false, true, true), Err("conversation_not_found"));
    assert_eq!(
        delegation_membership_decision(true, false, true),
        Err("source_agent_not_in_conversation")
    );
    assert_eq!(
        delegation_membership_decision(true, true, false),
        Err("target_agent_not_in_conversation")
    );
    assert_eq!(delegation_membership_decision(true, true, true), Ok(()));
}

#[test]
fn stored_permissions_are_parsed_in_order() {
    let rows = vec!["use_tools".to_string(), "read_messages".to_string()];
    assert_eq!(
        parse_permissions(&rows),
        Ok(vec![AgentPermission::UseTools, AgentPermission::ReadMessages])
    );
    let bad = vec!["read_messages".to_string(), "fly".to_string()];
    assert_eq!(parse_permissions(&bad), Err("unknown permission value: fly".to_string()));
}

#[test]
fn channel_history_paging() {
    assert_eq!(channel_history_access(Some(ChannelAccess::Subscriber)), Ok(()));
    assert_eq!(channel_history_access(Some(ChannelAccess::Forbidden)).unwrap_err().status, 403);
    assert_eq!(channel_history_access(None).unwrap_err().code, "channel_access_failed");
    assert_eq!(history_window(GetChannelMessagesQuery { after_seq: None, limit: None }), (0, 50));
    assert_eq!(history_window(GetChannelMessagesQuery { after_seq: Some(9), limit: Some(0) }), (9, 1));
    assert_eq!(history_window(GetChannelMessagesQuery { after_seq: None, limit: Some(80) }), (0, 50));
    assert_eq!(history_page(vec![1, 2, 3], 2), (vec![1, 2], true));
    assert_eq!(history_page(vec![1, 2], 2), (vec![1, 2], false));
}

#[test]
fn backup_settings_and_keys() {
    assert_eq!(frequency_from_stored(Some("daily")), BackupFrequency::Daily);
    assert_eq!(frequency_from_stored(Some("weekly")), BackupFrequency::Weekly);
    assert_eq!(frequency_from_stored(Some("monthly")), BackupFrequency::Never);
    assert_eq!(frequency_from_stored(None), BackupFrequency::Never);
    assert_eq!(BackupFrequency::Weekly.as_str(), "weekly");
    assert_eq!(
        backup_object_key(1, 2),
        "backups/00000000-0000-0000-0000-000000000001/00000000-0000-0000-0000-000000000002.enc"
    );
}

#[test]
fn backup_and_device_answers() {
    assert_eq!(
        restore_backup_decision(Some(Some("https://x".into()))),
        Ok(RestoreBackupResponse { download_url: "https://x".into() })
    );
    assert_eq!(restore_backup_decision(Some(None)).unwrap_err().status, 404);
    assert_eq!(restore_backup_decision(None).unwrap_err().code, "backup_restore_failed");
    assert_eq!(delete_backup_decision(Some(true)), Ok(()));
    assert_eq!(delete_backup_decision(Some(false)).unwrap_err().code, "backup_not_found");
    assert_eq!(delete_device_decision(Some(1)), Ok(()));
    assert_eq!(delete_device_decision(Some(0)).unwrap_err().code, "device_not_found");
    assert_eq!(delete_device_decision(None).unwrap_err().status, 500);
}

#[test]
fn lookup_and_update_answers() {
    let nf = failure(404, "agent_not_found", "Agent not found");
    let err = failure(500, "internal_error", "Failed to fetch agent profile");
    assert_eq!(lookup_answer(Some(Some(5)), nf, err), Ok(5));
    assert_eq!(lookup_answer::<u8>(Some(None), nf, err), Err(nf));
    assert_eq!(lookup_answer::<u8>(None, nf, err), Err(err));
    assert_eq!(update_answer(Some(true), nf, err), Ok(()));
    assert_eq!(update_answer(Some(false), nf, err), Err(nf));
    assert_eq!(update_answer(None, nf, err), Err(err));
}

#[test]
fn channel_creation_requires_a_name() {
    assert_eq!(validate_channel_creation("  news ", None), Ok(("news".to_string(), true)));
    assert_eq!(validate_channel_creation("news", Some(false)), Ok(("news".to_string(), false)));
    assert_eq!(validate_channel_creation("   ", Some(true)).unwrap_err().code, "invalid_channel_name");
}

#[test]
fn otp_codes_expire_after_five_minutes() {
    let issued = otp_expires_at(1_000);
    assert_eq!(issued, 301_000);
    assert!(otp_usable(false, issued, 300_999));
    assert!(!otp_usable(false, issued, 301_000));
    assert!(!otp_usable(true, issued, 2_000));
}

#[test]
fn verify_otp_steps_follow_the_code_row() {
    let row = OtpCodeRow { id: 5, expires_at_ms: 1_000, used: false };
    assert_eq!(verify_otp_after_lookup(Some(Some(row)), 999), VerifyOtpStep::MarkUsed(5));
    match verify_otp_after_lookup(Some(Some(row)), 1_000) {
        VerifyOtpStep::Fail(e) => assert_eq!(e.code, "invalid_otp"),
        _ => panic!("an expired code must be refused"),
    }
    match verify_otp_after_lookup(Some(Some(OtpCodeRow { used: true, ..row })), 10) {
        VerifyOtpStep::Fail(e) => assert_eq!(e.message, "Invalid or expired OTP"),
        _ => panic!("a used code must be refused"),
    }
    match verify_otp_after_lookup(Some(None), 10) {
        VerifyOtpStep::Fail(e) => assert_eq!(e.code, "invalid_otp"),
        _ => panic!("a missing code must be refused"),
    }
    match verify_otp_after_lookup(None, 10) {
        VerifyOtpStep::Fail(e) => assert_eq!(e.code, "otp_query_failed"),
        _ => panic!("a failed lookup must be reported"),
    }
    assert_eq!(verify_otp_after_mark(Some(1)), VerifyOtpStep::IssueSession);
    for outcome in [Some(0), Some(2), None] {
        match verify_otp_after_mark(outcome) {
            VerifyOtpStep::Fail(e) => assert_eq!(e.code, "otp_already_used"),
            _ => panic!("no session without marking the code"),
        }
    }
    assert_eq!(verify_otp_session_answer(Some(3), Some("s".into())), Ok((3, "s".to_string())));
    assert_eq!(verify_otp_session_answer(None, None).unwrap_err().code, "user_upsert_failed");
    assert_eq!(verify_otp_session_answer(Some(3), None).unwrap_err().code, "session_issue_failed");
}

#[test]
fn access_decision_passes_user_and_device() {
    let c = access_token_claims(7, Some(9), 1_000);
    assert_eq!(access_decision(Ok(c)), Ok((UserId(7), DeviceId(Some(9)))));
    let f = access_decision(Err("token revoked".into())).unwrap_err();
    assert_eq!((f.status, f.code, f.fallback), (401, "invalid_token", "Access token is invalid"));
}

#[test]
fn agent_session_subscription() {
    assert_eq!(
        agent_inbound_subject(1),
        "agent.inbound.00000000-0000-0000-0000-000000000001"
    );
    assert_eq!(agent_session_after_subscribe(4, true), AgentSessionStep::RegisterAndRelay(4));
    assert_eq!(
        agent_session_after_subscribe(4, false),
        AgentSessionStep::ErrorFrameAndClose("subscribe_failed", "Failed to subscribe agent session")
    );
}

#[test]
fn normalized_locale_is_a_fixed_point() {
    for tag in [" ko_kr ", "zh-hant-tw", "EN", "sr-latn-rs-1996"] {
        let once = normalize_locale(tag).unwrap();
        assert_eq!(normalize_locale(&once), Some(once.clone()));
    }
}

#[test]
fn invite_membership_gate_refuses_before_anything_else() {
    assert!(invite_membership_gate(Some(Membership::Member)).is_ok());
    let f = invite_membership_gate(Some(Membership::NotMember)).unwrap_err();
    assert_eq!((f.status, f.code, f.fallback), (403, "forbidden", "User is not a member of this conversation"));
    let f = invite_membership_gate(Some(Membership::ConversationNotFound)).unwrap_err();
    assert_eq!((f.status, f.code), (404, "conversation_not_found"));
    let f = invite_membership_gate(None).unwrap_err();
    assert_eq!((f.status, f.code), (500, "membership_check_failed"));
}

#[test]
fn invite_manage_gate_allows_only_managers() {
    assert!(invite_manage_gate(Some(true)).is_ok());
    let f = invite_manage_gate(Some(false)).unwrap_err();
    assert_eq!((f.status, f.code, f.fallback), (403, "forbidden", "Only conversation admins can invite agents"));
    let f = invite_manage_gate(None).unwrap_err();
    assert_eq!((f.status, f.code, f.fallback), (500, "internal_error", "Failed to invite agent"));
}

#[test]
fn invite_agent_answer_maps_each_outcome() {
    assert_eq!(invite_agent_answer(InviteOutcome::Invited).unwrap(), InviteAgentResponse { invited: true });
    let f = invite_agent_answer(InviteOutcome::AlreadyInvited).unwrap_err();
    assert_eq!((f.status, f.code), (409, "already_invited"));
    let f = invite_agent_answer(InviteOutcome::AgentNotFoundOrRevoked).unwrap_err();
    assert_eq!((f.status, f.code), (404, "agent_not_found"));
    let f = invite_agent_answer(InviteOutcome::Failed).unwrap_err();
    assert_eq!((f.status, f.code), (500, "invite_failed"));
}

#[test]
fn agent_socket_token_refuses_missing_or_empty_token() {
    let f = agent_socket_token(None).unwrap_err();
    assert_eq!((f.status, f.code, f.fallback), (401, "agent_missing_token", "Agent token is required"));
    let f = agent_socket_token(Some("")).unwrap_err();
    assert_eq!((f.status, f.code), (401, "agent_missing_token"));
    assert_eq!(agent_socket_token(Some("paw_agent_abc")).unwrap(), "paw_agent_abc");
}

#[test]
fn agent_socket_after_lookup_decides_from_the_lookup() {
    let f = agent_socket_after_lookup(None, true).unwrap_err();
    assert_eq!((f.status, f.code), (500, "internal_error"));
    let f = agent_socket_after_lookup(Some(None), true).unwrap_err();
    assert_eq!((f.status, f.code, f.fallback), (401, "invalid_agent_token", "Agent token is invalid"));
    assert_eq!(agent_socket_after_lookup(Some(Some(7)), true).unwrap(), AgentSocketStart::Relay(7));
    assert_eq!(
        agent_socket_after_lookup(Some(Some(7)), false).unwrap(),
        AgentSocketStart::ErrorFrame("nats_unavailable", "Agent gateway requires NATS")
    );
}
