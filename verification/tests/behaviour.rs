use wordsnap::api::{
    completion_text, extract_api_error, http_error_message, is_empty_translation_message,
    next_api_step, request_failure_category, request_failure_message, transport_label, translation_prompt, translation_target_lang, truncate, ApiEvent, ApiStep,
    RequestFailure,
};
use wordsnap::errors::{
    friendly_hotkey_error, hotkey_error_category, lock_err, to_string, translation_error_category,
    translation_error_category_of,
};
use wordsnap::float::{clamp_float_size, error_float_update, float_is_dismissible, FloatPayload};
use wordsnap::logging::{
    elapsed_details, frontend_log_record, hotkey_failed_details, http_status_details, log_line,
    project_logs_dir, request_completed_details, request_failed_details, request_started_details,
    sanitize_log_field, selection_captured_details, session_log_filename,
    translation_completed_details, translation_failed_details, FrontendLogLevel, LogLevel,
};
use wordsnap::settings::{
    api_key_missing, chat_completions_url, fill_missing_settings, mask_api_key, merge_settings,
    normalize_base_url, settings_change_summary, settings_payload, SaveSettingsRequest,
    StoredSettings,
};
use wordsnap::translation::{
    advance_translation, is_missing_key_message, is_single_english_word, removal_key, retry_text, selection_outcome,
    start_translation, SelectionOutcome, TranslationAction, TranslationEvent, TranslationPhase,
};
use wordsnap::window::{menu_fallback_origin, menu_origin, monitor_contains, PixelRect};
use wordsnap::words::{format_recent, previous_date, recent_label, CalendarDate, LocalMinute};
use wordsnap::Platform;

#[test]
fn names_session_log_files_with_start_time_and_process_id() {
    assert_eq!(
        session_log_filename("2026-08-12_14-35-22.123", 4567),
        "2026-08-12_14-35-22.123_pid-4567.log"
    );
}

#[test]
fn sanitizes_control_characters_and_limits_log_fields() {
    assert_eq!(
        sanitize_log_field("first\nsecond\tvalue"),
        "first second value"
    );
    assert_eq!(sanitize_log_field(&"a".repeat(300)).chars().count(), 240);
}

#[test]
fn dismisses_only_completed_float_states() {
    for state in ["word", "sentence", "error"] {
        assert!(float_is_dismissible(state), "expected dismissible: {state}");
    }
    for state in ["idle", "loading", "unknown"] {
        assert!(!float_is_dismissible(state), "expected persistent: {state}");
    }
}

#[test]
fn normalizes_openai_compatible_base_urls() {
    assert_eq!(
        normalize_base_url(" api.example.com/v1/ "),
        "https://api.example.com/v1"
    );
    assert_eq!(
        normalize_base_url("http://localhost:11434/v1/"),
        "http://localhost:11434/v1"
    );
    assert_eq!(normalize_base_url(""), "https://api.openai.com/v1");
}

#[test]
fn builds_chat_completions_url_once() {
    assert_eq!(
        chat_completions_url("api.example.com/v1"),
        "https://api.example.com/v1/chat/completions"
    );
    assert_eq!(
        chat_completions_url("https://api.example.com/v1/chat/completions"),
        "https://api.example.com/v1/chat/completions"
    );
}

#[test]
fn identifies_only_single_ascii_english_words() {
    for word in ["hello", " well-known ", "A"] {
        assert!(is_single_english_word(word), "expected word: {word}");
    }
    for text in ["", "two words", "中文", "hello!", "-"] {
        assert!(!is_single_english_word(text), "expected non-word: {text}");
    }
}

#[test]
fn masks_api_keys_without_exposing_more_than_the_tail() {
    assert_eq!(mask_api_key("sk-example-1234"), "•••••••••••• 1234");
    assert_eq!(mask_api_key("abc"), "•••••••••••• abc");
}

#[test]
fn log_levels_have_upper_case_names() {
    assert_eq!(LogLevel::Debug.as_str(), "DEBUG");
    assert_eq!(LogLevel::Info.as_str(), "INFO");
    assert_eq!(LogLevel::Error.as_str(), "ERROR");
}

#[test]
fn log_lines_hold_level_event_and_details() {
    let debug = log_line("2026-08-12T14:35:22+08:00", LogLevel::Debug, "test.debug", "result=success");
    assert_eq!(debug, "2026-08-12T14:35:22+08:00 DEBUG test.debug result=success");
    let info = log_line("t", LogLevel::Info, "test.info", "result=success");
    assert!(info.contains("INFO test.info result=success"));
    let error = log_line("t", LogLevel::Error, "test.error", "line\none");
    assert_eq!(error, "t ERROR test.error line one");
}

#[test]
fn sanitizing_keeps_plain_short_fields() {
    assert_eq!(sanitize_log_field("result=success"), "result=success");
    assert_eq!(sanitize_log_field(""), "");
    assert_eq!(sanitize_log_field("\u{7f}x\r"), " x ");
    let long: String = "é".repeat(241);
    assert_eq!(sanitize_log_field(&long), "é".repeat(240));
}

#[test]
fn frontend_events_are_checked_against_the_known_list() {
    let known = frontend_log_record(FrontendLogLevel::Info, "frontend.initialized");
    assert_eq!(known.level, LogLevel::Info);
    assert_eq!(known.event, "frontend.initialized");
    assert_eq!(known.details, "source=webview");
    let debug = frontend_log_record(FrontendLogLevel::Debug, "frontend.command_completed");
    assert_eq!(debug.level, LogLevel::Debug);
    let unknown = frontend_log_record(FrontendLogLevel::Debug, "frontend.something_else");
    assert_eq!(unknown.level, LogLevel::Error);
    assert_eq!(unknown.event, "frontend.log_event_rejected");
    assert_eq!(unknown.details, "reason=unknown_event");
}

#[test]
fn logs_live_beside_the_application_directory() {
    assert_eq!(
        project_logs_dir("/home/me/wordsnap/src-tauri"),
        Ok("/home/me/wordsnap/logs".to_string())
    );
    assert_eq!(
        project_logs_dir(""),
        Err("failed to resolve project root directory".to_string())
    );
}

#[test]
fn normalizing_twice_changes_nothing() {
    for input in ["api.example.com/v1/", "http://x", "", "  https://a.b/c//  ", "/"] {
        let once = normalize_base_url(input);
        assert_eq!(normalize_base_url(&once), once);
        assert!(once.starts_with("http://") || once.starts_with("https://"));
        assert!(!once.ends_with('/'));
    }
    assert_eq!(normalize_base_url("/"), "https://api.openai.com/v1");
    assert_eq!(normalize_base_url("https://a/ /"), "https://a/ ");
    assert_eq!(normalize_base_url(&normalize_base_url("https://a/ /")), "https://a");
}

#[test]
fn completion_url_is_built_once_from_any_input() {
    for input in ["", "api.example.com/v1", "http://localhost/chat/completions/", "x/ /"] {
        let url = chat_completions_url(input);
        assert!(url.ends_with("/chat/completions"));
        assert_eq!(chat_completions_url(&url), url);
    }
    assert_eq!(chat_completions_url(""), "https://api.openai.com/v1/chat/completions");
}

fn stored(base_url: &str, model: &str, hotkey: &str, target_lang: &str, api_key: &str) -> StoredSettings {
    StoredSettings {
        base_url: base_url.to_string(),
        model: model.to_string(),
        hotkey: hotkey.to_string(),
        target_lang: target_lang.to_string(),
        api_key: api_key.to_string(),
    }
}

#[test]
fn default_settings_point_at_openai() {
    let d = StoredSettings::default();
    assert_eq!(d.base_url, "https://api.openai.com/v1");
    assert_eq!(d.model, "gpt-4o-mini");
    assert_eq!(d.hotkey, "Alt+T");
    assert_eq!(d.target_lang, "简体中文");
    assert_eq!(d.api_key, "");
    assert!(api_key_missing(&d));
}

#[test]
fn saving_without_a_new_key_keeps_the_old_one() {
    let current = stored("https://old/v1", "m", "Alt+T", "English", "sk-old");
    let request = SaveSettingsRequest {
        base_url: " new.example.com/v1/ ".to_string(),
        model: "  ".to_string(),
        hotkey: " Ctrl+T ".to_string(),
        target_lang: "".to_string(),
        api_key: None,
    };
    let next = merge_settings(&current, request);
    assert_eq!(next.base_url, "https://new.example.com/v1");
    assert_eq!(next.model, "gpt-4o-mini");
    assert_eq!(next.hotkey, "Ctrl+T");
    assert_eq!(next.target_lang, "简体中文");
    assert_eq!(next.api_key, "sk-old");

    let blank_key = SaveSettingsRequest {
        base_url: "".to_string(),
        model: "gpt-4o".to_string(),
        hotkey: "Alt+T".to_string(),
        target_lang: "English".to_string(),
        api_key: Some("   ".to_string()),
    };
    assert_eq!(merge_settings(&current, blank_key).api_key, "sk-old");

    let new_key = SaveSettingsRequest {
        base_url: "".to_string(),
        model: "gpt-4o".to_string(),
        hotkey: "Alt+T".to_string(),
        target_lang: "English".to_string(),
        api_key: Some(" sk-new ".to_string()),
    };
    let replaced = merge_settings(&current, new_key);
    assert_eq!(replaced.api_key, "sk-new");
    assert_eq!(replaced.base_url, "https://api.openai.com/v1");
}

#[test]
fn change_summary_reports_what_changed() {
    let current = stored("https://a/v1", "m", "Alt+T", "English", "k1");
    let next = stored("http://b/v1", "m", "Alt+T", "中文", "k2");
    assert_eq!(
        settings_change_summary(&current, &next),
        "base_url_changed=true model_changed=false target_lang_changed=true api_key_replaced=true transport=http_or_other"
    );
    assert_eq!(
        settings_change_summary(&current, &current),
        "base_url_changed=false model_changed=false target_lang_changed=false api_key_replaced=false transport=https"
    );
}

#[test]
fn loaded_settings_get_defaults_for_blank_fields() {
    let filled = fill_missing_settings(stored(" ", "m ", "", "\t", " key "));
    assert_eq!(filled.base_url, "https://api.openai.com/v1");
    assert_eq!(filled.model, "m ");
    assert_eq!(filled.hotkey, "Alt+T");
    assert_eq!(filled.target_lang, "简体中文");
    assert_eq!(filled.api_key, " key ");
}

#[test]
fn settings_payload_hides_the_key() {
    let p = settings_payload(stored("https://a", "m", "Alt+T", "English", "sk-secret-9876"));
    assert!(p.api_key_set);
    assert_eq!(p.api_key_preview, Some("•••••••••••• 9876".to_string()));
    assert_eq!(p.base_url, "https://a");
    let none = settings_payload(stored("https://a", "m", "Alt+T", "English", "  "));
    assert!(!none.api_key_set);
    assert_eq!(none.api_key_preview, None);
    assert!(api_key_missing(&stored("", "", "", "", " \n")));
    assert!(!api_key_missing(&stored("", "", "", "", "k")));
}

#[test]
fn truncates_long_replies_with_an_ellipsis() {
    assert_eq!(truncate("  hello  ", 10), "hello");
    assert_eq!(truncate("abcdef", 3), "abc…");
    assert_eq!(truncate("abc", 3), "abc");
    assert_eq!(truncate("   ", 3), "无响应内容");
}

#[test]
fn api_errors_show_the_server_message() {
    assert_eq!(
        extract_api_error(r#"{"error":{"message":"Invalid model"}}"#),
        "Invalid model"
    );
    assert_eq!(extract_api_error(r#"{"error":{"message":"  "}}"#), r#"{"error":{"message":"  "}}"#);
    assert_eq!(extract_api_error("Bad Gateway"), "Bad Gateway");
    assert_eq!(extract_api_error(""), "无响应内容");
    assert_eq!(extract_api_error(r#"{"error":"plain"}"#), r#"{"error":"plain"}"#);
}

#[test]
fn completion_replies_yield_the_translation() {
    let ok = r#"{"choices":[{"message":{"content":"  你好；您好  "}}]}"#;
    assert_eq!(completion_text(ok), Ok("你好;您好".to_string()));
    assert_eq!(
        completion_text("not json"),
        Err("API 响应不是有效的 JSON：not json".to_string())
    );
    assert_eq!(
        completion_text(r#"{"choices":[]}"#),
        Err("API 响应缺少翻译内容：{\"choices\":[]}".to_string())
    );
    assert_eq!(
        completion_text(r#"{"choices":{"0":{"message":{"content":"x"}}}}"#),
        Err("API 响应缺少翻译内容：{\"choices\":{\"0\":{\"message\":{\"content\":\"x\"}}}}".to_string())
    );
    assert_eq!(
        completion_text(r#"{"choices":[{"message":{"content":" "}}]}"#),
        Err("API 返回了空的翻译结果。".to_string())
    );
}

#[test]
fn api_exchange_steps_follow_the_status() {
    assert!(matches!(next_api_step(ApiEvent::StatusReceived(200)), ApiStep::ReadBody));
    assert!(matches!(next_api_step(ApiEvent::StatusReceived(500)), ApiStep::ReadErrorBody));
    match next_api_step(ApiEvent::StatusReceived(401)) {
        ApiStep::Failed(m) => assert_eq!(m, "API Key 无效或无权限，请在「设置…」中检查。"),
        _ => panic!("expected failure"),
    }
    match next_api_step(ApiEvent::StatusReceived(403)) {
        ApiStep::Failed(m) => assert!(m.contains("API Key")),
        _ => panic!("expected failure"),
    }
    match next_api_step(ApiEvent::ErrorBodyRead { status: 429, body: r#"{"error":{"message":"slow down"}}"#.to_string() }) {
        ApiStep::Failed(m) => assert_eq!(m, "API 返回错误 429：slow down"),
        _ => panic!("expected failure"),
    }
    match next_api_step(ApiEvent::BodyUnreadable) {
        ApiStep::Failed(m) => assert_eq!(m, "无法读取 API 响应内容。"),
        _ => panic!("expected failure"),
    }
    match next_api_step(ApiEvent::BodyRead(r#"{"choices":[{"message":{"content":"hi"}}]}"#.to_string())) {
        ApiStep::Translated(t) => assert_eq!(t, "hi"),
        _ => panic!("expected translation"),
    }
    match next_api_step(ApiEvent::SendFailed(RequestFailure::Timeout)) {
        ApiStep::Failed(m) => assert_eq!(m, "连接超时：请检查网络，或确认「模型地址」是否正确可达。"),
        _ => panic!("expected failure"),
    }
}

#[test]
fn request_failures_and_http_errors_have_messages() {
    assert_eq!(
        request_failure_message(RequestFailure::Connect),
        "无法连接服务器：请检查网络，或确认「模型地址」是否正确可达。"
    );
    assert_eq!(
        request_failure_message(RequestFailure::Other),
        "网络请求失败：请检查网络，或确认「模型地址」是否正确可达。"
    );
    assert_eq!(http_error_message(502, ""), "API 返回错误 502：无响应内容");
}

#[test]
fn translation_errors_are_categorised() {
    let cases = [
        (request_failure_message(RequestFailure::Timeout), "timeout"),
        (request_failure_message(RequestFailure::Connect), "connection"),
        (request_failure_message(RequestFailure::Other), "network_or_internal"),
        ("API Key 无效或无权限，请在「设置…」中检查。".to_string(), "authentication"),
        (http_error_message(500, "oops"), "http_status"),
        (completion_text("x").unwrap_err(), "invalid_response"),
        (completion_text("{}").unwrap_err(), "invalid_response"),
        (completion_text(r#"{"choices":[{"message":{"content":""}}]}"#).unwrap_err(), "empty_response"),
        ("无法读取 API 响应内容。".to_string(), "network_or_internal"),
    ];
    for (message, category) in cases {
        assert_eq!(translation_error_category_of(&message), category, "{message}");
        let error = anyhow::Error::msg(message.clone());
        assert_eq!(translation_error_category(&error), category);
    }
}

#[test]
fn hotkey_errors_are_categorised_and_explained() {
    let capture = anyhow::Error::msg("failed to capture selected text");
    assert_eq!(hotkey_error_category(&capture), "selection_capture");
    assert_eq!(
        friendly_hotkey_error(&capture, Platform::Other),
        "无法读取当前选中文本。请确认文本可以复制。"
    );
    assert_eq!(
        friendly_hotkey_error(&capture, Platform::MacOs),
        "无法读取当前选中文本。请确认文本可以复制，并在系统设置中允许 WordSnap 使用辅助功能。"
    );
    let timeout = anyhow::Error::msg("timed out while capturing selected text on main thread");
    assert_eq!(hotkey_error_category(&timeout), "selection_timeout");
    let input = anyhow::Error::msg("failed to initialize input simulator: NoPermission");
    assert_eq!(hotkey_error_category(&input), "input_simulator");
    assert_eq!(
        friendly_hotkey_error(&input, Platform::Other),
        "无法读取当前选中文本。请确认文本可以复制。"
    );
    let other = anyhow::Error::msg("API 返回错误 500：x");
    assert_eq!(hotkey_error_category(&other), "translation_or_internal");
    assert_eq!(friendly_hotkey_error(&other, Platform::Other), "翻译失败，请检查网络或 API 设置。");
}

#[test]
fn errors_become_strings() {
    assert_eq!(to_string("plain"), "plain");
    assert_eq!(to_string(anyhow::Error::msg("boom")), "boom");
    let poisoned = std::sync::PoisonError::new(5);
    assert_eq!(lock_err(poisoned), "internal state lock poisoned");
}

#[test]
fn prompts_name_the_target_language() {
    let english = stored("", "", "", " English ", "");
    assert_eq!(translation_target_lang(&english), "English");
    let blank = stored("", "", "", "  ", "");
    assert_eq!(translation_target_lang(&blank), "简体中文");
    assert_eq!(
        translation_prompt("English", "猫", true),
        "请把下面的文本翻译成English。\n如果当前文本已经是简体中文，请翻译为英文。\n只返回English中最常见的释义或译法,多个释义用分号分隔。\n不要例句,不要词性,不要解释,不要 Markdown。\n\n文本:\n猫"
    );
    assert_eq!(
        translation_prompt("简体中文", "Good morning.", false),
        "请把下面的文本翻译成简体中文。\n如果当前文本已经是简体中文，请翻译为英文。\n只返回简体中文译文,不要解释,不要例句,不要 Markdown。\n\n文本:\nGood morning."
    );
    assert_eq!(transport_label("https://api.openai.com/v1"), "https");
    assert_eq!(transport_label("http://localhost"), "http_or_other");
}

#[test]
fn float_payloads_start_idle_and_sizes_are_clamped() {
    let idle = FloatPayload::default();
    assert_eq!(idle.state, "idle");
    assert_eq!(idle.original, "");
    assert_eq!(idle.translation, None);
    assert!(!idle.is_word);
    assert_eq!(idle.count, None);
    assert_eq!(idle.error, None);
    assert_eq!(clamp_float_size(100, 1000), (240, 420));
    assert_eq!(clamp_float_size(300, 20), (300, 70));
    assert_eq!(clamp_float_size(999, 100), (400, 100));
    let e = error_float_update("未读取到文本", "oops");
    assert_eq!(e.payload.state, "error");
    assert_eq!(e.payload.error, Some("oops".to_string()));
    assert_eq!((e.width, e.height), (300, 150));
}

#[test]
fn a_word_is_translated_then_counted() {
    let (job, loading) = start_translation("  Hello  ");
    assert_eq!(loading.payload.state, "loading");
    assert_eq!(loading.payload.original, "Hello");
    assert!(loading.payload.is_word);
    assert_eq!((loading.width, loading.height), (250, 96));
    assert!(!float_is_dismissible(&loading.payload.state));

    let (job, action) = advance_translation(job, TranslationEvent::SettingsRead { api_key: " sk-1 ".to_string() });
    match action {
        TranslationAction::RequestTranslation { api_key, text, is_word } => {
            assert_eq!(api_key, "sk-1");
            assert_eq!(text, "Hello");
            assert!(is_word);
        }
        _ => panic!("expected a request"),
    }
    let (job, action) = advance_translation(job, TranslationEvent::TranslationReturned(Ok("你好".to_string())));
    match action {
        TranslationAction::CountWord { word, translation } => {
            assert_eq!(word, "hello");
            assert_eq!(translation, "你好");
        }
        _ => panic!("expected counting"),
    }
    let (job, action) = advance_translation(job, TranslationEvent::WordCounted(3));
    assert!(matches!(job.phase, TranslationPhase::Finished));
    match action {
        TranslationAction::Finish(u) => {
            assert_eq!(u.payload.state, "word");
            assert_eq!(u.payload.translation, Some("你好".to_string()));
            assert_eq!(u.payload.count, Some(3));
            assert_eq!((u.width, u.height), (300, 150));
            assert!(float_is_dismissible(&u.payload.state));
        }
        _ => panic!("expected the final card"),
    }
}

#[test]
fn a_sentence_is_translated_without_counting() {
    let (job, loading) = start_translation("Good morning.");
    assert!(!loading.payload.is_word);
    assert_eq!(loading.width, 320);
    let (job, _) = advance_translation(job, TranslationEvent::SettingsRead { api_key: "k".to_string() });
    let (job, action) = advance_translation(job, TranslationEvent::TranslationReturned(Ok("早上好。".to_string())));
    assert!(matches!(job.phase, TranslationPhase::Finished));
    match action {
        TranslationAction::Finish(u) => {
            assert_eq!(u.payload.state, "sentence");
            assert_eq!(u.payload.count, None);
            assert_eq!(u.width, 340);
        }
        _ => panic!("expected the final card"),
    }
}

#[test]
fn translation_failures_end_with_an_error_card() {
    let (job, _) = start_translation("hello");
    let (done, action) = advance_translation(job, TranslationEvent::SettingsRead { api_key: "  ".to_string() });
    assert!(matches!(done.phase, TranslationPhase::Finished));
    match action {
        TranslationAction::Finish(u) => {
            assert_eq!(u.payload.state, "error");
            assert_eq!(u.payload.error, Some("请先点击菜单栏图标，在「设置…」里填写 API Key。".to_string()));
            assert_eq!(u.payload.original, "hello");
        }
        _ => panic!("expected the error card"),
    }
    let (job, _) = start_translation("hello world");
    let (job, _) = advance_translation(job, TranslationEvent::SettingsRead { api_key: "k".to_string() });
    let (_, action) = advance_translation(job, TranslationEvent::TranslationReturned(Err("boom".to_string())));
    match action {
        TranslationAction::Finish(u) => {
            assert_eq!(u.payload.error, Some("boom".to_string()));
            assert!(!u.payload.is_word);
            assert_eq!((u.width, u.height), (300, 150));
        }
        _ => panic!("expected the error card"),
    }
}

#[test]
fn blank_selections_and_retries_are_refused() {
    match selection_outcome(" \n".to_string(), Platform::Other) {
        SelectionOutcome::ShowError(u) => {
            assert_eq!(u.payload.original, "未读取到文本");
            assert_eq!(u.payload.error, Some("请先选中可复制的文本，再按 Alt+T。".to_string()));
        }
        _ => panic!("expected an error"),
    }
    match selection_outcome(" text ".to_string(), Platform::MacOs) {
        SelectionOutcome::Translate(t) => assert_eq!(t, " text "),
        _ => panic!("expected translation"),
    }
    assert_eq!(retry_text("  again "), Ok("again".to_string()));
    assert_eq!(retry_text("  "), Err("没有可重试的文本。".to_string()));
}

#[test]
fn removal_keys_are_lower_case() {
    assert_eq!(removal_key("  Hello "), Ok("hello".to_string()));
    assert_eq!(removal_key("ÉCOLE"), Ok("école".to_string()));
    assert_eq!(removal_key("   "), Err("单词不能为空。".to_string()));
}

#[test]
fn the_menu_opens_near_the_tray_within_the_work_area() {
    let work = PixelRect { left: 0, top: 0, width: 1920, height: 1040 };
    assert!(monitor_contains(work, 100, 100));
    assert!(!monitor_contains(work, 1920, 100));
    assert_eq!(menu_origin(1000, 1030, work, 392, 300, 16), (804, 714));
    assert_eq!(menu_origin(1900, 10, work, 392, 300, 16), (1528, 26));
    assert_eq!(menu_origin(5, 10, work, 392, 300, 16), (0, 26));
    assert_eq!(menu_fallback_origin(500, 10), (304, 34));
    assert_eq!(menu_fallback_origin(i32::MIN + 5, i32::MAX - 3), (i32::MIN, i32::MAX));
}

#[test]
fn recent_labels_show_time_yesterday_or_date() {
    let today = CalendarDate { year: 2026, month: 3, day: 1 };
    let at = |year, month, day, hour, minute| LocalMinute {
        date: CalendarDate { year, month, day },
        hour,
        minute,
    };
    assert_eq!(recent_label(at(2026, 3, 1, 9, 5), today), "09:05");
    assert_eq!(recent_label(at(2026, 2, 28, 23, 59), today), "昨天");
    assert_eq!(recent_label(at(2026, 2, 27, 1, 0), today), "2/27");
    assert_eq!(recent_label(at(2025, 12, 31, 1, 0), today), "12/31");
    assert_eq!(
        previous_date(CalendarDate { year: 2024, month: 3, day: 1 }),
        Some(CalendarDate { year: 2024, month: 2, day: 29 })
    );
    assert_eq!(
        previous_date(CalendarDate { year: 2026, month: 1, day: 1 }),
        Some(CalendarDate { year: 2025, month: 12, day: 31 })
    );
    assert_eq!(
        previous_date(CalendarDate { year: 1900, month: 3, day: 1 }),
        Some(CalendarDate { year: 1900, month: 2, day: 28 })
    );
    assert_eq!(previous_date(CalendarDate { year: -262143, month: 1, day: 1 }), None);
}

#[test]
fn stored_times_become_labels() {
    let label = format_recent("not a time");
    assert_eq!(label.chars().count(), 5);
    assert_eq!(label.chars().nth(2), Some(':'));
    let old = format_recent("2001-01-02T12:00:00Z");
    assert!(old == "1/2" || old == "1/3" || old == "1/1", "{old}");
}

#[test]
fn change_summaries_do_not_depend_on_values() {
    let a = settings_change_summary(
        &stored("https://a", "m1", "Alt+T", "English", "k1"),
        &stored("https://b", "m1", "Alt+T", "English", "k1"),
    );
    let b = settings_change_summary(
        &stored("https://x", "m9", "Alt+T", "中文", "k7"),
        &stored("https://y", "m9", "Alt+T", "中文", "k7"),
    );
    assert_eq!(a, b);
    assert!(!a.contains("https://b"));
}

#[test]
fn filling_loaded_settings_twice_changes_nothing() {
    let once = fill_missing_settings(stored("", " x ", "", "", ""));
    let again = fill_missing_settings(StoredSettings {
        base_url: once.base_url.clone(),
        model: once.model.clone(),
        hotkey: once.hotkey.clone(),
        target_lang: once.target_lang.clone(),
        api_key: once.api_key.clone(),
    });
    assert_eq!(again.base_url, once.base_url);
    assert_eq!(again.model, once.model);
    assert_eq!(again.hotkey, once.hotkey);
    assert_eq!(again.target_lang, once.target_lang);
}

#[test]
fn phrases_are_never_counted() {
    for text in ["two words", "中文", "hello!", "  "] {
        let (job, _) = start_translation(text);
        assert!(!job.is_word);
        let (job, _) = advance_translation(job, TranslationEvent::SettingsRead { api_key: "k".to_string() });
        let (_, action) = advance_translation(job, TranslationEvent::TranslationReturned(Ok("t".to_string())));
        assert!(matches!(action, TranslationAction::Finish(_)));
    }
    let (job, _) = start_translation("Well-Known");
    let (job, _) = advance_translation(job, TranslationEvent::SettingsRead { api_key: "k".to_string() });
    let (_, action) = advance_translation(job, TranslationEvent::TranslationReturned(Err("x".to_string())));
    assert!(matches!(action, TranslationAction::Finish(_)));
}

use wordsnap::translation::translation_started_details;
use wordsnap::capture::{capture_start, capture_step, should_restore_clipboard, CaptureAction, CaptureEvent};

/// Runs a capture against scripted clipboard reads; returns the result, how
/// many reads were made and what was put back.
fn run_capture(previous: Option<&str>, reads: &[Option<&str>]) -> (String, usize, Vec<String>) {
    let mut state = capture_start();
    let mut event = CaptureEvent::Started { previous: previous.map(str::to_string) };
    let mut polls = 0;
    let mut restored = Vec::new();
    loop {
        let (next, action) = capture_step(state, event);
        state = next;
        event = match action {
            CaptureAction::ClearClipboard => CaptureEvent::Cleared,
            CaptureAction::SendCopy => CaptureEvent::CopySent,
            CaptureAction::Wait { millis } => {
                assert_eq!(millis, 12);
                let read = reads.get(polls).copied().flatten().map(str::to_string);
                polls += 1;
                CaptureEvent::Polled(read)
            }
            CaptureAction::Restore(text) => {
                restored.push(text);
                CaptureEvent::Restored
            }
            CaptureAction::Done(text) => return (text, polls, restored),
            CaptureAction::Abandon => panic!("unexpected abandon"),
        };
    }
}

#[test]
fn capture_takes_the_first_copied_text_and_restores_the_clipboard() {
    let (text, polls, restored) = run_capture(Some("old"), &[None, Some(""), Some("picked"), Some("later")]);
    assert_eq!(text, "picked");
    assert_eq!(polls, 3);
    assert_eq!(restored, vec!["old".to_string()]);
}

#[test]
fn capture_gives_up_after_fifty_reads() {
    let (text, polls, restored) = run_capture(None, &[]);
    assert_eq!(text, "");
    assert_eq!(polls, 50);
    assert!(restored.is_empty());
    let (text, polls, restored) = run_capture(Some("keep"), &[Some(""); 60]);
    assert_eq!(text, "");
    assert_eq!(polls, 50);
    assert_eq!(restored, vec!["keep".to_string()]);
}

#[test]
fn capture_is_abandoned_when_the_copy_fails() {
    let state = capture_start();
    let (state, action) = capture_step(state, CaptureEvent::Started { previous: Some("old".to_string()) });
    assert!(matches!(action, CaptureAction::ClearClipboard));
    let (state, action) = capture_step(state, CaptureEvent::Cleared);
    assert!(matches!(action, CaptureAction::SendCopy));
    let (_, action) = capture_step(state, CaptureEvent::CopyFailed);
    assert!(matches!(action, CaptureAction::Abandon));
}

#[test]
fn the_clipboard_is_restored_only_if_untouched() {
    assert!(should_restore_clipboard(7, 7));
    assert!(!should_restore_clipboard(8, 7));
}

#[test]
fn translation_logs_tell_only_length_and_wordness() {
    assert_eq!(translation_started_details(5, true), "text_chars=5 is_word=true");
    assert_eq!(translation_started_details(12, false), "text_chars=12 is_word=false");
}

#[test]
fn request_failures_are_logged_by_category() {
    assert_eq!(request_failure_category(RequestFailure::Timeout), "timeout");
    assert_eq!(request_failure_category(RequestFailure::Connect), "connection");
    assert_eq!(request_failure_category(RequestFailure::Other), "request");
    assert_eq!(
        request_failed_details(RequestFailure::Connect, 42),
        "category=connection elapsed_ms=42"
    );
}

#[test]
fn request_start_details_show_only_the_scheme() {
    assert_eq!(
        request_started_details("https://api.example.com/v1", true),
        "transport=https is_word=true"
    );
    assert_eq!(
        request_started_details("https://secret.example.org/key", true),
        request_started_details("https://api.example.com/v1", true)
    );
    let plain = request_started_details("http://localhost:8080", false);
    assert!(plain.ends_with(" is_word=false"));
    assert!(!plain.contains("localhost"));
}

#[test]
fn numeric_log_details_are_exact() {
    assert_eq!(http_status_details(503, 7), "status=503 elapsed_ms=7");
    assert_eq!(
        request_completed_details(200, 12, 345),
        "status=200 response_chars=12 elapsed_ms=345"
    );
    assert_eq!(elapsed_details(0), "elapsed_ms=0");
    assert_eq!(
        translation_completed_details(false, 9, 1000),
        "is_word=false output_chars=9 elapsed_ms=1000"
    );
    assert_eq!(selection_captured_details(5, 18), "text_chars=5 elapsed_ms=18");
}

#[test]
fn failure_details_hide_the_message() {
    let err = anyhow::Error::msg("连接超时：请检查网络，或确认「模型地址」是否正确可达。");
    assert_eq!(translation_failed_details(&err, 30), "category=timeout elapsed_ms=30");
    let secret = anyhow::Error::msg("API 返回错误 500：sk-secret-value");
    let details = translation_failed_details(&secret, 1);
    assert_eq!(details, "category=http_status elapsed_ms=1");
    assert!(!details.contains("sk-secret"));
    let hotkey = anyhow::Error::msg("timed out waiting for the selection");
    assert_eq!(hotkey_failed_details(&hotkey), "category=selection_timeout");
}

#[test]
fn recognises_the_blank_and_missing_key_messages() {
    assert!(is_empty_translation_message("API 返回了空的翻译结果。"));
    assert!(!is_empty_translation_message("API 返回了空的翻译结果"));
    assert!(is_missing_key_message("请先点击菜单栏图标，在「设置…」里填写 API Key。"));
    assert!(!is_missing_key_message("API Key 无效或无权限，请在「设置…」中检查。"));
}
