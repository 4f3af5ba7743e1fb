//! The exchange with an OpenAI-compatible chat completion API: the prompt
//! that is sent, and what each reply or failure turns into.

use crate::json::{
    completion_content, completion_content_path, document_text_at, error_message_content,
    error_message_path,
};
use crate::settings::{default_target_lang, StoredSettings};
use crate::text::{
    append_chars, append_str, chars_of, decimal, decimal_chars, is_blank, starts_with_chars,
    string_of, trim, trim_chars,
};
use vstd::prelude::*;

verus! {

/// `s` with every `from` replaced by `to`.
pub open spec fn replace_char(s: Seq<char>, from: char, to: char) -> Seq<char> {
    s.map_values(|c: char| if c == from { to } else { c })
}

/// What `truncate` gives: the trimmed text, cut to `max` characters with an
/// ellipsis where it was longer; a fixed notice where nothing is left.
pub open spec fn truncated(text: Seq<char>, max: nat) -> Seq<char> {
    let t = trim(text);
    if t.len() == 0 {
        "无响应内容"@
    } else if t.len() > max {
        t.take(max as int).push('…')
    } else {
        t
    }
}

/// Shortens a server reply for display: trims it, keeps at most `max_chars`
/// characters and marks a cut with `…`; an empty reply becomes a notice.
pub fn truncate(text: &str, max_chars: usize) -> (r: String)
    ensures
        r@ == truncated(text@, max_chars as nat),
{
    let chars = chars_of(text);
    let trimmed = trim_chars(&chars);
    if trimmed.len() == 0 {
        return String::from_str("无响应内容");
    }
    if trimmed.len() > max_chars {
        let mut kept: Vec<char> = Vec::new();
        let mut i: usize = 0;
        while i < max_chars
            invariant
                i <= max_chars < trimmed.len(),
                kept@ == trimmed@.take(i as int),
            decreases max_chars - i,
        {
            kept.push(trimmed[i]);
            i = i + 1;
        }
        kept.push('…');
        string_of(kept.as_slice())
    } else {
        string_of(trimmed.as_slice())
    }
}

/// The readable reason in an API error body: its `error.message` where that
/// is a string that is not blank, else the body itself, shortened.
pub open spec fn api_error_text(body: Seq<char>) -> Seq<char> {
    match document_text_at(body, error_message_path()) {
        Some(m) => if !is_blank(m) {
            m
        } else {
            truncated(body, 140)
        },
        None => truncated(body, 140),
    }
}

/// Extracts the readable message from an OpenAI-style error body
/// `{"error":{"message":"…"}}`; where there is none, the body shortened to
/// 140 characters.
pub fn extract_api_error(body: &str) -> (r: String)
    ensures
        r@ == api_error_text(body@),
{
    match error_message_content(body) {
        Some(message) => {
            let mc = chars_of(message.as_str());
            let t = trim_chars(&mc);
            if t.len() > 0 {
                message
            } else {
                truncate(body, 140)
            }
        },
        None => truncate(body, 140),
    }
}

/// How sending the request failed.
#[derive(Clone, Copy, PartialEq, Eq, Structural, Debug)]
pub enum RequestFailure {
    /// The request timed out.
    Timeout,
    /// No connection could be made.
    Connect,
    /// Any other failure to send.
    Other,
}

/// The message for a request that could not be sent.
pub open spec fn request_failure_text(kind: RequestFailure) -> Seq<char> {
    match kind {
        RequestFailure::Timeout => "连接超时：请检查网络，或确认「模型地址」是否正确可达。"@,
        RequestFailure::Connect => "无法连接服务器：请检查网络，或确认「模型地址」是否正确可达。"@,
        RequestFailure::Other => "网络请求失败：请检查网络，或确认「模型地址」是否正确可达。"@,
    }
}

/// The message shown when the request could not be sent.
pub fn request_failure_message(kind: RequestFailure) -> (r: String)
    ensures
        r@ == request_failure_text(kind),
{
    match kind {
        RequestFailure::Timeout => String::from_str(
            "连接超时：请检查网络，或确认「模型地址」是否正确可达。",
        ),
        RequestFailure::Connect => String::from_str(
            "无法连接服务器：请检查网络，或确认「模型地址」是否正确可达。",
        ),
        RequestFailure::Other => String::from_str(
            "网络请求失败：请检查网络，或确认「模型地址」是否正确可达。",
        ),
    }
}

/// The log category of a request that could not be sent.
pub open spec fn request_failure_category_text(kind: RequestFailure) -> Seq<char> {
    match kind {
        RequestFailure::Timeout => "timeout"@,
        RequestFailure::Connect => "connection"@,
        RequestFailure::Other => "request"@,
    }
}

/// `timeout`, `connection` or `request`: how a failed send is logged.
pub fn request_failure_category(kind: RequestFailure) -> (r: &'static str)
    ensures
        r@ == request_failure_category_text(kind),
{
    match kind {
        RequestFailure::Timeout => "timeout",
        RequestFailure::Connect => "connection",
        RequestFailure::Other => "request",
    }
}

/// Whether a failure message is the one for a blank translation.
pub fn is_empty_translation_message(message: &str) -> (b: bool)
    ensures
        b == (message@ == empty_translation_text()),
{
    crate::text::str_equal(message, "API 返回了空的翻译结果。")
}

/// The message for a rejected API key (HTTP 401 or 403).
pub open spec fn auth_failure_text() -> Seq<char> {
    "API Key 无效或无权限，请在「设置…」中检查。"@
}

/// The message for any other HTTP error status, with the server's reason.
pub open spec fn http_error_text(status: u16, body: Seq<char>) -> Seq<char> {
    "API 返回错误 "@ + decimal(status as nat) + "："@ + api_error_text(body)
}

/// The message for an HTTP error status other than 401 and 403.
pub fn http_error_message(status: u16, body: &str) -> (r: String)
    ensures
        r@ == http_error_text(status, body@),
{
    let mut m = chars_of("API 返回错误 ");
    let code = decimal_chars(status as u64);
    append_chars(&mut m, &code);
    append_str(&mut m, "：");
    let reason = extract_api_error(body);
    append_str(&mut m, reason.as_str());
    string_of(m.as_slice())
}

/// The message for a reply body that could not be read.
pub open spec fn unreadable_body_text() -> Seq<char> {
    "无法读取 API 响应内容。"@
}

/// The message for a reply body that is no JSON document.
pub open spec fn invalid_json_text(raw: Seq<char>) -> Seq<char> {
    "API 响应不是有效的 JSON："@ + truncated(raw, 120)
}

/// The message for a reply that holds no translation.
pub open spec fn missing_content_text(raw: Seq<char>) -> Seq<char> {
    "API 响应缺少翻译内容："@ + truncated(raw, 120)
}

/// The message for a reply whose translation is blank.
pub open spec fn empty_translation_text() -> Seq<char> {
    "API 返回了空的翻译结果。"@
}

/// What a successful reply body yields: the translation, trimmed and with
/// full-width semicolons made ASCII, or the message that says what is wrong
/// with the body.
pub open spec fn completion_result(raw: Seq<char>) -> Result<Seq<char>, Seq<char>> {
    match crate::json::json_document(raw) {
        None => Err(invalid_json_text(raw)),
        Some(_) => match document_text_at(raw, completion_content_path()) {
            None => Err(missing_content_text(raw)),
            Some(content) => {
                let t = replace_char(trim(content), '；', ';');
                if t.len() == 0 {
                    Err(empty_translation_text())
                } else {
                    Ok(t)
                }
            },
        },
    }
}

/// A reply whose content is not blank gives the whole content, trimmed,
/// with each full-width semicolon made ASCII and nothing else changed: the
/// translation keeps its length, however long it is. A blank content gives
/// the message for an empty translation.
pub proof fn completion_keeps_the_whole_translation(raw: Seq<char>, content: Seq<char>)
    requires
        crate::json::json_document(raw) is Some,
        document_text_at(raw, completion_content_path()) == Some(content),
    ensures
        !is_blank(content) ==> (completion_result(raw) matches Ok(t) && t.len() == trim(
            content,
        ).len() && forall|i: int|
            0 <= i < t.len() ==> #[trigger] t[i] == if trim(content)[i] == '；' {
                ';'
            } else {
                trim(content)[i]
            }),
        is_blank(content) ==> completion_result(raw) == Err::<Seq<char>, Seq<char>>(
            empty_translation_text(),
        ),
{
}

/// Reads the translation out of a successful chat completion reply.
pub fn completion_text(raw: &str) -> (r: Result<String, String>)
    ensures
        match r {
            Ok(t) => completion_result(raw@) == Ok::<Seq<char>, Seq<char>>(t@),
            Err(e) => completion_result(raw@) == Err::<Seq<char>, Seq<char>>(e@),
        },
{
    match completion_content(raw) {
        None => {
            let mut m = chars_of("API 响应不是有效的 JSON：");
            let cut = truncate(raw, 120);
            append_str(&mut m, cut.as_str());
            Err(string_of(m.as_slice()))
        },
        Some(None) => {
            let mut m = chars_of("API 响应缺少翻译内容：");
            let cut = truncate(raw, 120);
            append_str(&mut m, cut.as_str());
            Err(string_of(m.as_slice()))
        },
        Some(Some(content)) => {
            let cc = chars_of(content.as_str());
            let t = trim_chars(&cc);
            let mut out: Vec<char> = Vec::new();
            let mut i: usize = 0;
            while i < t.len()
                invariant
                    i <= t.len(),
                    out@ == replace_char(t@.take(i as int), '；', ';'),
                decreases t.len() - i,
            {
                let c = t[i];
                out.push(if c == '；' { ';' } else { c });
                i = i + 1;
                assert(t@.take(i as int).drop_last() =~= t@.take(i - 1));
                assert(out@ =~= replace_char(t@.take(i as int), '；', ';'));
            }
            assert(t@.take(t@.len() as int) =~= t@);
            if out.len() == 0 {
                Err(String::from_str("API 返回了空的翻译结果。"))
            } else {
                Ok(string_of(out.as_slice()))
            }
        },
    }
}

/// What the exchange with the API has reached.
pub enum ApiEvent {
    /// The request could not be sent.
    SendFailed(RequestFailure),
    /// The server answered with this HTTP status.
    StatusReceived(u16),
    /// The body of an error reply was read (empty where reading failed).
    ErrorBodyRead { status: u16, body: String },
    /// The body of a successful reply could not be read.
    BodyUnreadable,
    /// The body of a successful reply was read.
    BodyRead(String),
}

/// What to do next in the exchange.
pub enum ApiStep {
    /// Read the body of the error reply, then report `ErrorBodyRead`.
    ReadErrorBody,
    /// Read the body of the successful reply, then report `BodyRead`
    /// or `BodyUnreadable`.
    ReadBody,
    /// The exchange failed with this message.
    Failed(String),
    /// The exchange produced this translation.
    Translated(String),
}

/// The mathematical content of an [`ApiStep`].
pub enum ApiStepView {
    ReadErrorBody,
    ReadBody,
    Failed(Seq<char>),
    Translated(Seq<char>),
}

impl View for ApiStep {
    type V = ApiStepView;

    open spec fn view(&self) -> ApiStepView {
        match self {
            ApiStep::ReadErrorBody => ApiStepView::ReadErrorBody,
            ApiStep::ReadBody => ApiStepView::ReadBody,
            ApiStep::Failed(m) => ApiStepView::Failed(m@),
            ApiStep::Translated(t) => ApiStepView::Translated(t@),
        }
    }
}

/// Whether an HTTP status is a success (2xx).
pub open spec fn status_is_success(status: u16) -> bool {
    200 <= status <= 299
}

/// The next step of the exchange after `event`.
pub open spec fn api_step(event: ApiEvent) -> ApiStepView {
    match event {
        ApiEvent::SendFailed(kind) => ApiStepView::Failed(request_failure_text(kind)),
        ApiEvent::StatusReceived(status) => if status_is_success(status) {
            ApiStepView::ReadBody
        } else if status == 401 || status == 403 {
            ApiStepView::Failed(auth_failure_text())
        } else {
            ApiStepView::ReadErrorBody
        },
        ApiEvent::ErrorBodyRead { status, body } => ApiStepView::Failed(
            http_error_text(status, body@),
        ),
        ApiEvent::BodyUnreadable => ApiStepView::Failed(unreadable_body_text()),
        ApiEvent::BodyRead(raw) => match completion_result(raw@) {
            Ok(t) => ApiStepView::Translated(t),
            Err(m) => ApiStepView::Failed(m),
        },
    }
}

/// The exchange reads a body only after a status, and then ends: a
/// successful status leads to reading the reply, 401 and 403 fail at once as
/// a rejected key, any other status leads to reading the error body; every
/// other report ends the exchange with a translation or a failure, and a
/// translation comes only from a successful reply's body.
pub proof fn api_exchange_ends(event: ApiEvent)
    ensures
        (api_step(event) is ReadBody) <==> (event matches ApiEvent::StatusReceived(s)
            && status_is_success(s)),
        (api_step(event) is ReadErrorBody) <==> (event matches ApiEvent::StatusReceived(s)
            && !status_is_success(s) && s != 401 && s != 403),
        (api_step(event) is Translated) ==> (event is BodyRead),
{
}

/// Decides what follows each stage of the exchange with the API.
pub fn next_api_step(event: ApiEvent) -> (s: ApiStep)
    ensures
        s@ == api_step(event),
{
    match event {
        ApiEvent::SendFailed(kind) => ApiStep::Failed(request_failure_message(kind)),
        ApiEvent::StatusReceived(status) => {
            if 200 <= status && status <= 299 {
                ApiStep::ReadBody
            } else if status == 401 || status == 403 {
                ApiStep::Failed(String::from_str("API Key 无效或无权限，请在「设置…」中检查。"))
            } else {
                ApiStep::ReadErrorBody
            }
        },
        ApiEvent::ErrorBodyRead { status, body } => ApiStep::Failed(
            http_error_message(status, body.as_str()),
        ),
        ApiEvent::BodyUnreadable => ApiStep::Failed(String::from_str("无法读取 API 响应内容。")),
        ApiEvent::BodyRead(raw) => match completion_text(raw.as_str()) {
            Ok(t) => ApiStep::Translated(t),
            Err(m) => ApiStep::Failed(m),
        },
    }
}

/// The language that the prompt names: the configured one trimmed, or the
/// default where it is blank.
pub open spec fn target_lang_of(configured: Seq<char>) -> Seq<char> {
    if trim(configured).len() == 0 {
        default_target_lang()
    } else {
        trim(configured)
    }
}

/// The language to translate into, from the settings.
pub fn translation_target_lang(settings: &StoredSettings) -> (r: String)
    ensures
        r@ == target_lang_of(settings.target_lang@),
{
    let c = chars_of(settings.target_lang.as_str());
    let t = trim_chars(&c);
    if t.len() == 0 {
        String::from_str("简体中文")
    } else {
        string_of(t.as_slice())
    }
}

/// The prompt sent for `text`: a single word asks for its most common
/// senses, anything else for a plain translation.
pub open spec fn prompt_text(target_lang: Seq<char>, text: Seq<char>, is_word: bool) -> Seq<char> {
    if is_word {
        "请把下面的文本翻译成"@ + target_lang
            + "。\n如果当前文本已经是简体中文，请翻译为英文。\n只返回"@ + target_lang
            + "中最常见的释义或译法,多个释义用分号分隔。\n不要例句,不要词性,不要解释,不要 Markdown。\n\n文本:\n"@
            + text
    } else {
        "请把下面的文本翻译成"@ + target_lang
            + "。\n如果当前文本已经是简体中文，请翻译为英文。\n只返回"@ + target_lang
            + "译文,不要解释,不要例句,不要 Markdown。\n\n文本:\n"@ + text
    }
}

/// Builds the prompt for `text`.
pub fn translation_prompt(target_lang: &str, text: &str, is_word: bool) -> (r: String)
    ensures
        r@ == prompt_text(target_lang@, text@, is_word),
{
    let mut m = chars_of("请把下面的文本翻译成");
    append_str(&mut m, target_lang);
    append_str(&mut m, "。\n如果当前文本已经是简体中文，请翻译为英文。\n只返回");
    append_str(&mut m, target_lang);
    if is_word {
        append_str(
            &mut m,
            "中最常见的释义或译法,多个释义用分号分隔。\n不要例句,不要词性,不要解释,不要 Markdown。\n\n文本:\n",
        );
    } else {
        append_str(&mut m, "译文,不要解释,不要例句,不要 Markdown。\n\n文本:\n");
    }
    append_str(&mut m, text);
    string_of(m.as_slice())
}

/// The label that logs use for how the API is reached.
pub open spec fn transport_text(base_url: Seq<char>) -> Seq<char> {
    if "https://"@.is_prefix_of(base_url) {
        "https"@
    } else {
        "http_or_other"@
    }
}

/// The log learns nothing of the endpoint address but whether it uses
/// HTTPS.
pub proof fn transport_reveals_only_the_scheme(base_url: Seq<char>)
    ensures
        transport_text(base_url) == "https"@ || transport_text(base_url) == "http_or_other"@,
        transport_text(base_url) == "https"@ <==> "https://"@.is_prefix_of(base_url),
{
    reveal_strlit("https");
    reveal_strlit("http_or_other");
    assert("https"@.len() != "http_or_other"@.len());
}

/// `https` where the base URL starts with `https://`, else `http_or_other`.
pub fn transport_label(base_url: &str) -> (r: &'static str)
    ensures
        r@ == transport_text(base_url@),
{
    let b = chars_of(base_url);
    let p = chars_of("https://");
    if starts_with_chars(&b, &p) {
        "https"
    } else {
        "http_or_other"
    }
}

} // verus!
