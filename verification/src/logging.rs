//! The session log: file names, line format, field sanitising, and which
//! events the web page may log.

use crate::api::{
    request_failure_category, request_failure_category_text, transport_label, transport_text,
    RequestFailure,
};
use crate::errors::{
    hotkey_category_text, hotkey_error_category_of, translation_category_text,
    translation_error_category_of,
};
use crate::settings::bool_text;
use crate::text::{
    append_chars, append_str, chars_of, char_is_ascii_control, contains_text, decimal,
    decimal_chars, is_ascii_control, lemma_contains_at, str_equal, string_of,
};
use vstd::prelude::*;

verus! {

/// The severity of a log line.
#[derive(Clone, Copy, PartialEq, Eq, Structural, Debug)]
pub enum LogLevel {
    Debug,
    Info,
    Error,
}

/// The name of a level as the log writes it.
pub open spec fn level_text(level: LogLevel) -> Seq<char> {
    match level {
        LogLevel::Debug => "DEBUG"@,
        LogLevel::Info => "INFO"@,
        LogLevel::Error => "ERROR"@,
    }
}

impl LogLevel {
    /// `DEBUG`, `INFO` or `ERROR`.
    pub fn as_str(self) -> (r: &'static str)
        ensures
            r@ == level_text(self),
    {
        match self {
            LogLevel::Debug => "DEBUG",
            LogLevel::Info => "INFO",
            LogLevel::Error => "ERROR",
        }
    }
}

/// The name of the log file of a session.
pub open spec fn session_log_name(started_at: Seq<char>, process_id: u32) -> Seq<char> {
    started_at + "_pid-"@ + decimal(process_id as nat) + ".log"@
}

/// Names a session's log file by its start time and process id, so that
/// sessions never share a file.
pub fn session_log_filename(started_at: &str, process_id: u32) -> (r: String)
    ensures
        r@ == session_log_name(started_at@, process_id),
{
    let mut m = chars_of(started_at);
    append_str(&mut m, "_pid-");
    let digits = decimal_chars(process_id as u64);
    append_chars(&mut m, &digits);
    append_str(&mut m, ".log");
    string_of(m.as_slice())
}

/// Sessions started at different times (written in the same fixed-width
/// format) or by different processes get different log files: the name
/// gives back both the start time and the process id.
pub proof fn session_log_names_are_distinct(a: Seq<char>, p: u32, b: Seq<char>, q: u32)
    requires
        a.len() == b.len(),
        session_log_name(a, p) == session_log_name(b, q),
    ensures
        a == b,
        p == q,
{
    let na = session_log_name(a, p);
    let nb = session_log_name(b, q);
    reveal_strlit("_pid-");
    reveal_strlit(".log");
    assert(na.subrange(0, a.len() as int) =~= a);
    assert(nb.subrange(0, b.len() as int) =~= b);
    let da = decimal(p as nat);
    let db = decimal(q as nat);
    assert(na.len() == a.len() + 5 + da.len() + 4);
    assert(nb.len() == b.len() + 5 + db.len() + 4);
    assert(na.subrange((a.len() + 5) as int, na.len() - 4) =~= da);
    assert(nb.subrange((b.len() + 5) as int, nb.len() - 4) =~= db);
    crate::text::lemma_decimal_injective(p as nat, q as nat);
}

/// The longest field that a log line keeps, in characters.
pub open spec fn max_field_chars() -> nat {
    240
}

/// A field as the log keeps it: its first 240 characters, with each ASCII
/// control character (newlines, tabs, ...) turned into a space.
pub open spec fn sanitized(value: Seq<char>) -> Seq<char> {
    let kept = if value.len() <= max_field_chars() {
        value
    } else {
        value.take(max_field_chars() as int)
    };
    kept.map_values(|c: char| if is_ascii_control(c) { ' ' } else { c })
}

/// Makes a field safe for a one-line log entry.
pub fn sanitize_log_field(value: &str) -> (r: String)
    ensures
        r@ == sanitized(value@),
{
    let v = chars_of(value);
    let n: usize = if v.len() <= 240 {
        v.len()
    } else {
        240
    };
    let mut out: Vec<char> = Vec::new();
    let mut i: usize = 0;
    while i < n
        invariant
            i <= n <= v.len(),
            n == if v.len() <= 240 { v.len() } else { 240 },
            out@ == v@.take(i as int).map_values(
                |c: char| if is_ascii_control(c) { ' ' } else { c },
            ),
        decreases n - i,
    {
        let c = v[i];
        out.push(if char_is_ascii_control(c) { ' ' } else { c });
        i = i + 1;
        assert(out@ =~= v@.take(i as int).map_values(
            |c: char| if is_ascii_control(c) { ' ' } else { c },
        ));
    }
    assert(v@.take(n as int) =~= if v@.len() <= 240 { v@ } else { v@.take(240) });
    string_of(out.as_slice())
}

/// A line of the session log.
pub open spec fn log_line_text(
    timestamp: Seq<char>,
    level: LogLevel,
    event: Seq<char>,
    details: Seq<char>,
) -> Seq<char> {
    timestamp + " "@ + level_text(level) + " "@ + event + " "@ + sanitized(details)
}

/// Formats a line of the session log: time, level, event and the sanitised
/// details, separated by spaces.
pub fn log_line(timestamp: &str, level: LogLevel, event: &str, details: &str) -> (r: String)
    ensures
        r@ == log_line_text(timestamp@, level, event@, details@),
{
    let mut m = chars_of(timestamp);
    append_str(&mut m, " ");
    append_str(&mut m, level.as_str());
    append_str(&mut m, " ");
    append_str(&mut m, event);
    append_str(&mut m, " ");
    let clean = sanitize_log_field(details);
    append_str(&mut m, clean.as_str());
    string_of(m.as_slice())
}

/// A sanitised field holds no ASCII control character and at most 240
/// characters; a field that already satisfies both is kept as it is.
pub proof fn sanitized_fields_are_clean(value: Seq<char>)
    ensures
        sanitized(value).len() <= max_field_chars(),
        forall|j: int| 0 <= j < sanitized(value).len() ==> !is_ascii_control(
            #[trigger] sanitized(value)[j],
        ),
        (value.len() <= max_field_chars() && forall|j: int|
            0 <= j < value.len() ==> !is_ascii_control(#[trigger] value[j])) ==> sanitized(value)
            == value,
{
    assert(!is_ascii_control(' '));
    if value.len() <= max_field_chars() && forall|j: int|
        0 <= j < value.len() ==> !is_ascii_control(#[trigger] value[j]) {
        assert(sanitized(value) =~= value);
    }
}

/// A log line with plain details records the level, the event and the
/// details side by side, as `LEVEL event details`.
pub proof fn log_line_records_plain_fields(
    timestamp: Seq<char>,
    level: LogLevel,
    event: Seq<char>,
    details: Seq<char>,
)
    requires
        details.len() <= max_field_chars(),
        forall|j: int| 0 <= j < details.len() ==> !is_ascii_control(#[trigger] details[j]),
    ensures
        contains_text(
            log_line_text(timestamp, level, event, details),
            level_text(level) + " "@ + event + " "@ + details,
        ),
{
    sanitized_fields_are_clean(details);
    let line = log_line_text(timestamp, level, event, details);
    let tail = level_text(level) + " "@ + event + " "@ + details;
    let head = timestamp + " "@;
    assert(line =~= head + tail);
    assert(line.subrange(head.len() as int, (head.len() + tail.len()) as int) =~= tail);
    lemma_contains_at(line, tail, head.len() as int);
}

/// The level that the web page asks for.
#[derive(Clone, Copy, PartialEq, Eq, Structural, Debug)]
pub enum FrontendLogLevel {
    Debug,
    Info,
    Error,
}

/// A line to write to the log, without its time.
pub struct LogRecord {
    pub level: LogLevel,
    pub event: String,
    pub details: String,
}

/// The events that the web page may log.
pub open spec fn frontend_event_allowed(event: Seq<char>) -> bool {
    ||| event == "frontend.initialized"@
    ||| event == "frontend.command_completed"@
    ||| event == "frontend.command_failed"@
    ||| event == "frontend.event_listener_failed"@
    ||| event == "frontend.render_failed"@
    ||| event == "frontend.unhandled_error"@
    ||| event == "frontend.unhandled_rejection"@
}

/// The log level for a level that the web page asks for.
pub open spec fn frontend_level(level: FrontendLogLevel) -> LogLevel {
    match level {
        FrontendLogLevel::Debug => LogLevel::Debug,
        FrontendLogLevel::Info => LogLevel::Info,
        FrontendLogLevel::Error => LogLevel::Error,
    }
}

/// Decides what an event reported by the web page writes to the log: a
/// known event under its own name and level, anything else as a rejection.
pub fn frontend_log_record(level: FrontendLogLevel, event: &str) -> (r: LogRecord)
    ensures
        frontend_event_allowed(event@) ==> r.level == frontend_level(level) && r.event@ == event@
            && r.details@ == "source=webview"@,
        !frontend_event_allowed(event@) ==> r.level == LogLevel::Error && r.event@
            == "frontend.log_event_rejected"@ && r.details@ == "reason=unknown_event"@,
{
    let allowed = str_equal(event, "frontend.initialized") || str_equal(
        event,
        "frontend.command_completed",
    ) || str_equal(event, "frontend.command_failed") || str_equal(
        event,
        "frontend.event_listener_failed",
    ) || str_equal(event, "frontend.render_failed") || str_equal(
        event,
        "frontend.unhandled_error",
    ) || str_equal(event, "frontend.unhandled_rejection");
    if allowed {
        let mapped = match level {
            FrontendLogLevel::Debug => LogLevel::Debug,
            FrontendLogLevel::Info => LogLevel::Info,
            FrontendLogLevel::Error => LogLevel::Error,
        };
        LogRecord {
            level: mapped,
            event: String::from_str(event),
            details: String::from_str("source=webview"),
        }
    } else {
        LogRecord {
            level: LogLevel::Error,
            event: String::from_str("frontend.log_event_rejected"),
            details: String::from_str("reason=unknown_event"),
        }
    }
}

/// What `Path::parent` gives for a path, as text.
pub uninterp spec fn path_parent(path: Seq<char>) -> Option<Seq<char>>;

/// What `Path::join` gives for a base path and a part, as text.
pub uninterp spec fn path_join(base: Seq<char>, part: Seq<char>) -> Seq<char>;

/// `std::path::Path::parent`, on a path given as text. The contract names
/// its result.
#[verifier::external_body]
fn parent_path(path: &str) -> (r: Option<String>)
    ensures
        r.deep_view() == path_parent(path@),
{
    std::path::Path::new(path).parent().map(|p| p.to_string_lossy().into_owned())
}

/// `std::path::Path::join`, on paths given as text. The contract names its
/// result.
#[verifier::external_body]
fn join_path(base: &str, part: &str) -> (r: String)
    ensures
        r@ == path_join(base@, part@),
{
    std::path::Path::new(base).join(part).to_string_lossy().into_owned()
}

/// The directory for session logs: `logs` beside the application's
/// manifest directory, that is, in the project root.
pub fn project_logs_dir(manifest_dir: &str) -> (r: Result<String, String>)
    ensures
        match path_parent(manifest_dir@) {
            Some(root) => r matches Ok(dir) && dir@ == path_join(root, "logs"@),
            None => r matches Err(m) && m@ == "failed to resolve project root directory"@,
        },
{
    match parent_path(manifest_dir) {
        Some(root) => Ok(join_path(root.as_str(), "logs")),
        None => Err(String::from_str("failed to resolve project root directory")),
    }
}

// The details of the log lines of a translation. Each is built from counts,
// flags and category labels only, never from the text, the translation, the
// API key or the endpoint address.

fn append_decimal(m: &mut Vec<char>, n: u64)
    ensures
        final(m)@ == old(m)@ + decimal(n as nat),
{
    let digits = decimal_chars(n);
    append_chars(m, &digits);
}

fn append_bool(m: &mut Vec<char>, b: bool)
    ensures
        final(m)@ == old(m)@ + bool_text(b),
{
    if b {
        append_str(m, "true");
    } else {
        append_str(m, "false");
    }
}

/// The details of a request about to be sent.
pub open spec fn request_started_text(base_url: Seq<char>, is_word: bool) -> Seq<char> {
    "transport="@ + transport_text(base_url) + " is_word="@ + bool_text(is_word)
}

/// Log details of a request about to be sent: how the API is reached and
/// whether a word is translated.
pub fn request_started_details(base_url: &str, is_word: bool) -> (r: String)
    ensures
        r@ == request_started_text(base_url@, is_word),
{
    let mut m = chars_of("transport=");
    append_str(&mut m, transport_label(base_url));
    append_str(&mut m, " is_word=");
    append_bool(&mut m, is_word);
    string_of(m.as_slice())
}

/// The details of a request that could not be sent.
pub open spec fn request_failed_text(kind: RequestFailure, elapsed_ms: u64) -> Seq<char> {
    "category="@ + request_failure_category_text(kind) + " elapsed_ms="@ + decimal(
        elapsed_ms as nat,
    )
}

/// Log details of a request that could not be sent.
pub fn request_failed_details(kind: RequestFailure, elapsed_ms: u64) -> (r: String)
    ensures
        r@ == request_failed_text(kind, elapsed_ms),
{
    let mut m = chars_of("category=");
    append_str(&mut m, request_failure_category(kind));
    append_str(&mut m, " elapsed_ms=");
    append_decimal(&mut m, elapsed_ms);
    string_of(m.as_slice())
}

/// The details of an HTTP error status.
pub open spec fn http_status_text(status: u16, elapsed_ms: u64) -> Seq<char> {
    "status="@ + decimal(status as nat) + " elapsed_ms="@ + decimal(elapsed_ms as nat)
}

/// Log details of an HTTP error status.
pub fn http_status_details(status: u16, elapsed_ms: u64) -> (r: String)
    ensures
        r@ == http_status_text(status, elapsed_ms),
{
    let mut m = chars_of("status=");
    append_decimal(&mut m, status as u64);
    append_str(&mut m, " elapsed_ms=");
    append_decimal(&mut m, elapsed_ms);
    string_of(m.as_slice())
}

/// The details of a completed request.
pub open spec fn request_completed_text(status: u16, response_chars: u64, elapsed_ms: u64) -> Seq<
    char,
> {
    "status="@ + decimal(status as nat) + " response_chars="@ + decimal(response_chars as nat)
        + " elapsed_ms="@ + decimal(elapsed_ms as nat)
}

/// Log details of a completed request: status, length of the translation,
/// time taken.
pub fn request_completed_details(status: u16, response_chars: u64, elapsed_ms: u64) -> (r:
    String)
    ensures
        r@ == request_completed_text(status, response_chars, elapsed_ms),
{
    let mut m = chars_of("status=");
    append_decimal(&mut m, status as u64);
    append_str(&mut m, " response_chars=");
    append_decimal(&mut m, response_chars);
    append_str(&mut m, " elapsed_ms=");
    append_decimal(&mut m, elapsed_ms);
    string_of(m.as_slice())
}

/// The details that give only the time taken.
pub open spec fn elapsed_text(elapsed_ms: u64) -> Seq<char> {
    "elapsed_ms="@ + decimal(elapsed_ms as nat)
}

/// Log details that give only the time taken.
pub fn elapsed_details(elapsed_ms: u64) -> (r: String)
    ensures
        r@ == elapsed_text(elapsed_ms),
{
    let mut m = chars_of("elapsed_ms=");
    append_decimal(&mut m, elapsed_ms);
    string_of(m.as_slice())
}

/// The details of a failed translation with this message.
pub open spec fn translation_failed_text(message: Seq<char>, elapsed_ms: u64) -> Seq<char> {
    "category="@ + translation_category_text(message) + " elapsed_ms="@ + decimal(
        elapsed_ms as nat,
    )
}

/// Log details of a failed translation: its category, not its message.
pub fn translation_failed_details(error: &anyhow::Error, elapsed_ms: u64) -> (r: String)
    ensures
        exists|message: String|
            vstd::string::to_string_from_display_ensures::<anyhow::Error>(error, message) && r@
                == translation_failed_text(message@, elapsed_ms),
{
    let message = error.to_string();
    let mut m = chars_of("category=");
    append_str(&mut m, translation_error_category_of(message.as_str()));
    append_str(&mut m, " elapsed_ms=");
    append_decimal(&mut m, elapsed_ms);
    string_of(m.as_slice())
}

/// The details of a completed translation.
pub open spec fn translation_completed_text(is_word: bool, output_chars: u64, elapsed_ms: u64) -> Seq<
    char,
> {
    "is_word="@ + bool_text(is_word) + " output_chars="@ + decimal(output_chars as nat)
        + " elapsed_ms="@ + decimal(elapsed_ms as nat)
}

/// Log details of a completed translation: whether it was a word, the
/// length of the translation, time taken.
pub fn translation_completed_details(is_word: bool, output_chars: u64, elapsed_ms: u64) -> (r:
    String)
    ensures
        r@ == translation_completed_text(is_word, output_chars, elapsed_ms),
{
    let mut m = chars_of("is_word=");
    append_bool(&mut m, is_word);
    append_str(&mut m, " output_chars=");
    append_decimal(&mut m, output_chars);
    append_str(&mut m, " elapsed_ms=");
    append_decimal(&mut m, elapsed_ms);
    string_of(m.as_slice())
}

/// The details of a captured selection.
pub open spec fn selection_captured_text(text_chars: u64, elapsed_ms: u64) -> Seq<char> {
    "text_chars="@ + decimal(text_chars as nat) + " elapsed_ms="@ + decimal(elapsed_ms as nat)
}

/// Log details of a captured selection: its length, time taken.
pub fn selection_captured_details(text_chars: u64, elapsed_ms: u64) -> (r: String)
    ensures
        r@ == selection_captured_text(text_chars, elapsed_ms),
{
    let mut m = chars_of("text_chars=");
    append_decimal(&mut m, text_chars);
    append_str(&mut m, " elapsed_ms=");
    append_decimal(&mut m, elapsed_ms);
    string_of(m.as_slice())
}

/// The details of a failed hotkey press with this message.
pub open spec fn hotkey_failed_text(message: Seq<char>) -> Seq<char> {
    "category="@ + hotkey_category_text(message)
}

/// Log details of a failed hotkey press: its category, not its message.
pub fn hotkey_failed_details(error: &anyhow::Error) -> (r: String)
    ensures
        exists|message: String|
            vstd::string::to_string_from_display_ensures::<anyhow::Error>(error, message) && r@
                == hotkey_failed_text(message@),
{
    let message = error.to_string();
    let mut m = chars_of("category=");
    append_str(&mut m, hotkey_error_category_of(message.as_str()));
    string_of(m.as_slice())
}

/// The log of a translation reveals no text, translation, key or address:
/// each detail line above is a function of counts and flags; the request
/// line depends on the endpoint only through whether it uses HTTPS, and a
/// failure line on the message only through its category. So two
/// translations whose texts, keys, addresses and answers differ but agree in
/// these are logged alike.
pub proof fn translation_log_details_hide_secrets(
    url1: Seq<char>,
    url2: Seq<char>,
    message1: Seq<char>,
    message2: Seq<char>,
    is_word: bool,
    elapsed_ms: u64,
)
    ensures
        "https://"@.is_prefix_of(url1) == "https://"@.is_prefix_of(url2) ==> request_started_text(
            url1,
            is_word,
        ) == request_started_text(url2, is_word),
        translation_category_text(message1) == translation_category_text(message2)
            ==> translation_failed_text(message1, elapsed_ms) == translation_failed_text(
            message2,
            elapsed_ms,
        ),
        hotkey_category_text(message1) == hotkey_category_text(message2) ==> hotkey_failed_text(
            message1,
        ) == hotkey_failed_text(message2),
{
}

} // verus!
