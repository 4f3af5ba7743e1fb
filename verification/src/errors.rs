//! Turning errors into what the user and the log are told.

use crate::api::{
    api_error_text, auth_failure_text, empty_translation_text, http_error_text, invalid_json_text,
    missing_content_text, request_failure_text, truncated, unreadable_body_text, RequestFailure,
};
use crate::text::{
    chars_of, contains_chars, contains_text, decimal, lacks_char,
    lemma_contains_at, lemma_decimal_digits, lemma_lacking_char_excludes, lemma_lacks_concat,
    str_contains,
};
use crate::Platform;
use vstd::prelude::*;

verus! {

#[verifier::external_type_specification]
#[verifier::external_body]
pub struct ExAnyhowError(anyhow::Error);

#[verifier::external_type_specification]
#[verifier::external_body]
#[verifier::reject_recursive_types(T)]
pub struct ExPoisonError<T>(std::sync::PoisonError<T>);

/// An error's message: `ToString::to_string` through its `Display`.
pub fn to_string<E: core::fmt::Display>(error: E) -> (r: String)
    ensures
        vstd::string::to_string_from_display_ensures::<E>(&error, r),
{
    error.to_string()
}

/// The message for a state lock that a panicking thread left poisoned.
pub fn lock_err<T>(_error: std::sync::PoisonError<T>) -> (r: String)
    ensures
        r@ == "internal state lock poisoned"@,
{
    String::from_str("internal state lock poisoned")
}

/// The log category of a failed hotkey press, by its message.
pub open spec fn hotkey_category_text(message: Seq<char>) -> Seq<char> {
    if contains_text(message, "timed out"@) {
        "selection_timeout"@
    } else if contains_text(message, "capture selected text"@) {
        "selection_capture"@
    } else if contains_text(message, "input simulator"@) {
        "input_simulator"@
    } else {
        "translation_or_internal"@
    }
}

/// The log category of a failed hotkey press with this message.
pub fn hotkey_error_category_of(message: &str) -> (r: &'static str)
    ensures
        r@ == hotkey_category_text(message@),
{
    if str_contains(message, "timed out") {
        "selection_timeout"
    } else if str_contains(message, "capture selected text") {
        "selection_capture"
    } else if str_contains(message, "input simulator") {
        "input_simulator"
    } else {
        "translation_or_internal"
    }
}

/// The log category of a failed hotkey press.
pub fn hotkey_error_category(error: &anyhow::Error) -> (r: &'static str)
    ensures
        exists|message: String|
            vstd::string::to_string_from_display_ensures::<anyhow::Error>(error, message) && r@
                == hotkey_category_text(message@),
{
    let message = error.to_string();
    hotkey_error_category_of(message.as_str())
}

/// What the user is told when a hotkey press failed.
pub open spec fn friendly_hotkey_text(message: Seq<char>, platform: Platform) -> Seq<char> {
    if contains_text(message, "capture selected text"@) || contains_text(
        message,
        "input simulator"@,
    ) {
        match platform {
            Platform::MacOs => "无法读取当前选中文本。请确认文本可以复制，并在系统设置中允许 WordSnap 使用辅助功能。"@,
            Platform::Other => "无法读取当前选中文本。请确认文本可以复制。"@,
        }
    } else {
        "翻译失败，请检查网络或 API 设置。"@
    }
}

/// What the user is told when a hotkey press failed with this message.
pub fn friendly_hotkey_message(message: &str, platform: Platform) -> (r: &'static str)
    ensures
        r@ == friendly_hotkey_text(message@, platform),
{
    if str_contains(message, "capture selected text") || str_contains(message, "input simulator") {
        match platform {
            Platform::MacOs =>
                "无法读取当前选中文本。请确认文本可以复制，并在系统设置中允许 WordSnap 使用辅助功能。",
            Platform::Other => "无法读取当前选中文本。请确认文本可以复制。",
        }
    } else {
        "翻译失败，请检查网络或 API 设置。"
    }
}

/// What the user is told when a hotkey press failed.
pub fn friendly_hotkey_error(error: &anyhow::Error, platform: Platform) -> (r: &'static str)
    ensures
        exists|message: String|
            vstd::string::to_string_from_display_ensures::<anyhow::Error>(error, message) && r@
                == friendly_hotkey_text(message@, platform),
{
    let message = error.to_string();
    friendly_hotkey_message(message.as_str(), platform)
}

/// The log category of a failed translation, by its message.
pub open spec fn translation_category_text(message: Seq<char>) -> Seq<char> {
    if contains_text(message, "连接超时"@) {
        "timeout"@
    } else if contains_text(message, "无法连接服务器"@) {
        "connection"@
    } else if contains_text(message, "API Key"@) {
        "authentication"@
    } else if contains_text(message, "API 返回错误"@) {
        "http_status"@
    } else if contains_text(message, "JSON"@) || contains_text(message, "缺少翻译内容"@) {
        "invalid_response"@
    } else if contains_text(message, "空的翻译结果"@) {
        "empty_response"@
    } else {
        "network_or_internal"@
    }
}

/// The log category of a failed translation with this message.
pub fn translation_error_category_of(message: &str) -> (r: &'static str)
    ensures
        r@ == translation_category_text(message@),
{
    let m = chars_of(message);
    if contains_chars(&m, &chars_of("连接超时")) {
        "timeout"
    } else if contains_chars(&m, &chars_of("无法连接服务器")) {
        "connection"
    } else if contains_chars(&m, &chars_of("API Key")) {
        "authentication"
    } else if contains_chars(&m, &chars_of("API 返回错误")) {
        "http_status"
    } else if contains_chars(&m, &chars_of("JSON")) || contains_chars(&m, &chars_of("缺少翻译内容")) {
        "invalid_response"
    } else if contains_chars(&m, &chars_of("空的翻译结果")) {
        "empty_response"
    } else {
        "network_or_internal"
    }
}

/// The log category of a failed translation.
pub fn translation_error_category(error: &anyhow::Error) -> (r: &'static str)
    ensures
        exists|message: String|
            vstd::string::to_string_from_display_ensures::<anyhow::Error>(error, message) && r@
                == translation_category_text(message@),
{
    let message = error.to_string();
    translation_error_category_of(message.as_str())
}

/// The translation failures whose messages are fixed texts fall into the
/// categories that name them: a timeout, a refused connection, a rejected
/// key, an empty translation; other send failures and an unreadable body are
/// network or internal failures.
pub proof fn translation_categories_of_fixed_messages()
    ensures
        translation_category_text(request_failure_text(RequestFailure::Timeout)) == "timeout"@,
        translation_category_text(request_failure_text(RequestFailure::Connect))
            == "connection"@,
        translation_category_text(request_failure_text(RequestFailure::Other))
            == "network_or_internal"@,
        translation_category_text(auth_failure_text()) == "authentication"@,
        translation_category_text(unreadable_body_text()) == "network_or_internal"@,
        translation_category_text(empty_translation_text()) == "empty_response"@,
{
    reveal_strlit("连接超时");
    reveal_strlit("无法连接服务器");
    reveal_strlit("API Key");
    reveal_strlit("API 返回错误");
    reveal_strlit("JSON");
    reveal_strlit("缺少翻译内容");
    reveal_strlit("空的翻译结果");
    let timeout = request_failure_text(RequestFailure::Timeout);
    reveal_strlit("连接超时：请检查网络，或确认「模型地址」是否正确可达。");
    assert(timeout.subrange(0, 4) =~= "连接超时"@);
    lemma_contains_at(timeout, "连接超时"@, 0);
    let connect = request_failure_text(RequestFailure::Connect);
    reveal_strlit("无法连接服务器：请检查网络，或确认「模型地址」是否正确可达。");
    assert(lacks_char(connect, '超'));
    lemma_lacking_char_excludes(connect, "连接超时"@, 2);
    assert(connect.subrange(0, 7) =~= "无法连接服务器"@);
    lemma_contains_at(connect, "无法连接服务器"@, 0);
    let other = request_failure_text(RequestFailure::Other);
    reveal_strlit("网络请求失败：请检查网络，或确认「模型地址」是否正确可达。");
    assert(lacks_char(other, '超'));
    assert(lacks_char(other, '服'));
    assert(lacks_char(other, 'K'));
    assert(lacks_char(other, '返'));
    assert(lacks_char(other, 'J'));
    assert(lacks_char(other, '缺'));
    assert(lacks_char(other, '空'));
    lemma_lacking_char_excludes(other, "连接超时"@, 2);
    lemma_lacking_char_excludes(other, "无法连接服务器"@, 4);
    lemma_lacking_char_excludes(other, "API Key"@, 4);
    lemma_lacking_char_excludes(other, "API 返回错误"@, 4);
    lemma_lacking_char_excludes(other, "JSON"@, 0);
    lemma_lacking_char_excludes(other, "缺少翻译内容"@, 0);
    lemma_lacking_char_excludes(other, "空的翻译结果"@, 0);
    let auth = auth_failure_text();
    reveal_strlit("API Key 无效或无权限，请在「设置…」中检查。");
    assert(lacks_char(auth, '超'));
    assert(lacks_char(auth, '服'));
    lemma_lacking_char_excludes(auth, "连接超时"@, 2);
    lemma_lacking_char_excludes(auth, "无法连接服务器"@, 4);
    assert(auth.subrange(0, 7) =~= "API Key"@);
    lemma_contains_at(auth, "API Key"@, 0);
    let unreadable = unreadable_body_text();
    reveal_strlit("无法读取 API 响应内容。");
    assert(lacks_char(unreadable, '超'));
    assert(lacks_char(unreadable, '服'));
    assert(lacks_char(unreadable, 'K'));
    assert(lacks_char(unreadable, '返'));
    assert(lacks_char(unreadable, 'J'));
    assert(lacks_char(unreadable, '缺'));
    assert(lacks_char(unreadable, '空'));
    lemma_lacking_char_excludes(unreadable, "连接超时"@, 2);
    lemma_lacking_char_excludes(unreadable, "无法连接服务器"@, 4);
    lemma_lacking_char_excludes(unreadable, "API Key"@, 4);
    lemma_lacking_char_excludes(unreadable, "API 返回错误"@, 4);
    lemma_lacking_char_excludes(unreadable, "JSON"@, 0);
    lemma_lacking_char_excludes(unreadable, "缺少翻译内容"@, 0);
    lemma_lacking_char_excludes(unreadable, "空的翻译结果"@, 0);
    let empty = empty_translation_text();
    reveal_strlit("API 返回了空的翻译结果。");
    assert(lacks_char(empty, '超'));
    assert(lacks_char(empty, '服'));
    assert(lacks_char(empty, 'K'));
    assert(lacks_char(empty, '错'));
    assert(lacks_char(empty, 'J'));
    assert(lacks_char(empty, '缺'));
    lemma_lacking_char_excludes(empty, "连接超时"@, 2);
    lemma_lacking_char_excludes(empty, "无法连接服务器"@, 4);
    lemma_lacking_char_excludes(empty, "API Key"@, 4);
    lemma_lacking_char_excludes(empty, "API 返回错误"@, 7);
    lemma_lacking_char_excludes(empty, "JSON"@, 0);
    lemma_lacking_char_excludes(empty, "缺少翻译内容"@, 0);
    assert(empty.subrange(7, 13) =~= "空的翻译结果"@);
    lemma_contains_at(empty, "空的翻译结果"@, 7);
}

/// An HTTP error is logged as one, unless the server's reason itself
/// mentions a timeout, a failed connection or an API key (whose categories
/// are checked first).
pub proof fn translation_category_of_http_error(status: u16, body: Seq<char>)
    requires
        lacks_char(api_error_text(body), '超'),
        lacks_char(api_error_text(body), '服'),
        lacks_char(api_error_text(body), 'K'),
    ensures
        translation_category_text(http_error_text(status, body)) == "http_status"@,
{
    reveal_strlit("连接超时");
    reveal_strlit("无法连接服务器");
    reveal_strlit("API Key");
    reveal_strlit("API 返回错误");
    reveal_strlit("API 返回错误 ");
    reveal_strlit("：");
    let head = "API 返回错误 "@;
    let digits = decimal(status as nat);
    let colon = "："@;
    let reason = api_error_text(body);
    let m = http_error_text(status, body);
    assert(m == head + digits + colon + reason);
    lemma_decimal_digits(status as nat);
    assert(lacks_char(digits, '超'));
    assert(lacks_char(digits, '服'));
    assert(lacks_char(digits, 'K'));
    assert(lacks_char(head, '超'));
    assert(lacks_char(head, '服'));
    assert(lacks_char(head, 'K'));
    assert(lacks_char(colon, '超'));
    assert(lacks_char(colon, '服'));
    assert(lacks_char(colon, 'K'));
    lemma_lacks_concat(head, digits, '超');
    lemma_lacks_concat(head + digits, colon, '超');
    lemma_lacks_concat(head + digits + colon, reason, '超');
    lemma_lacks_concat(head, digits, '服');
    lemma_lacks_concat(head + digits, colon, '服');
    lemma_lacks_concat(head + digits + colon, reason, '服');
    lemma_lacks_concat(head, digits, 'K');
    lemma_lacks_concat(head + digits, colon, 'K');
    lemma_lacks_concat(head + digits + colon, reason, 'K');
    lemma_lacking_char_excludes(m, "连接超时"@, 2);
    lemma_lacking_char_excludes(m, "无法连接服务器"@, 4);
    lemma_lacking_char_excludes(m, "API Key"@, 4);
    assert(m.subrange(0, 8) =~= "API 返回错误"@);
    lemma_contains_at(m, "API 返回错误"@, 0);
}

/// A reply body that is no JSON document, or that holds no translation, is
/// logged as an invalid response, unless the quoted body itself mentions a
/// timeout, a failed connection, an API key or an HTTP error.
pub proof fn translation_category_of_bad_body(raw: Seq<char>)
    requires
        lacks_char(truncated(raw, 120), '超'),
        lacks_char(truncated(raw, 120), '服'),
        lacks_char(truncated(raw, 120), 'K'),
        lacks_char(truncated(raw, 120), '返'),
    ensures
        translation_category_text(invalid_json_text(raw)) == "invalid_response"@,
        translation_category_text(missing_content_text(raw)) == "invalid_response"@,
{
    reveal_strlit("连接超时");
    reveal_strlit("无法连接服务器");
    reveal_strlit("API Key");
    reveal_strlit("API 返回错误");
    reveal_strlit("JSON");
    reveal_strlit("缺少翻译内容");
    reveal_strlit("API 响应不是有效的 JSON：");
    reveal_strlit("API 响应缺少翻译内容：");
    let t = truncated(raw, 120);
    let a = "API 响应不是有效的 JSON："@;
    let b = "API 响应缺少翻译内容："@;
    assert(lacks_char(a, '超'));
    assert(lacks_char(a, '服'));
    assert(lacks_char(a, 'K'));
    assert(lacks_char(a, '返'));
    assert(lacks_char(b, '超'));
    assert(lacks_char(b, '服'));
    assert(lacks_char(b, 'K'));
    assert(lacks_char(b, '返'));
    lemma_lacks_concat(a, t, '超');
    lemma_lacks_concat(a, t, '服');
    lemma_lacks_concat(a, t, 'K');
    lemma_lacks_concat(a, t, '返');
    lemma_lacks_concat(b, t, '超');
    lemma_lacks_concat(b, t, '服');
    lemma_lacks_concat(b, t, 'K');
    lemma_lacks_concat(b, t, '返');
    let ma = invalid_json_text(raw);
    let mb = missing_content_text(raw);
    lemma_lacking_char_excludes(ma, "连接超时"@, 2);
    lemma_lacking_char_excludes(ma, "无法连接服务器"@, 4);
    lemma_lacking_char_excludes(ma, "API Key"@, 4);
    lemma_lacking_char_excludes(ma, "API 返回错误"@, 4);
    assert(ma.subrange(12, 16) =~= "JSON"@);
    lemma_contains_at(ma, "JSON"@, 12);
    lemma_lacking_char_excludes(mb, "连接超时"@, 2);
    lemma_lacking_char_excludes(mb, "无法连接服务器"@, 4);
    lemma_lacking_char_excludes(mb, "API Key"@, 4);
    lemma_lacking_char_excludes(mb, "API 返回错误"@, 4);
    assert(mb.subrange(6, 12) =~= "缺少翻译内容"@);
    lemma_contains_at(mb, "缺少翻译内容"@, 6);
}

/// The message of a failed capture of the selection: the context that the
/// hotkey handler gives every capture error.
pub open spec fn capture_failure_text() -> Seq<char> {
    "failed to capture selected text"@
}

/// A failed capture of the selection is logged as a capture failure, and the
/// user is asked to check that the text can be copied.
pub proof fn hotkey_capture_failure_is_explained(platform: Platform)
    ensures
        hotkey_category_text(capture_failure_text()) == "selection_capture"@,
        friendly_hotkey_text(capture_failure_text(), platform) == match platform {
            Platform::MacOs => "无法读取当前选中文本。请确认文本可以复制，并在系统设置中允许 WordSnap 使用辅助功能。"@,
            Platform::Other => "无法读取当前选中文本。请确认文本可以复制。"@,
        },
{
    reveal_strlit("failed to capture selected text");
    reveal_strlit("timed out");
    reveal_strlit("capture selected text");
    let m = capture_failure_text();
    assert(lacks_char(m, 'm'));
    lemma_lacking_char_excludes(m, "timed out"@, 2);
    assert(m.subrange(10, 31) =~= "capture selected text"@);
    lemma_contains_at(m, "capture selected text"@, 10);
}

} // verus!
