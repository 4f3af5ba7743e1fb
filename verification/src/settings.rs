//! User settings: their defaults, how an edit is merged into them, how they
//! are shown, and how the API base URL is normalised.

use crate::text::{
    append_str, chars_of, concat_chars, ends_with_chars, is_blank, is_whitespace,
    starts_with_chars, strip_trailing, strip_trailing_chars, string_of, trim, trim_chars, trim_end,
    trim_start,
};
use vstd::prelude::*;

verus! {

/// The settings kept on disk.
pub struct StoredSettings {
    pub base_url: String,
    pub model: String,
    pub hotkey: String,
    pub target_lang: String,
    pub api_key: String,
}

/// The mathematical content of [`StoredSettings`].
pub struct StoredSettingsView {
    pub base_url: Seq<char>,
    pub model: Seq<char>,
    pub hotkey: Seq<char>,
    pub target_lang: Seq<char>,
    pub api_key: Seq<char>,
}

impl View for StoredSettings {
    type V = StoredSettingsView;

    open spec fn view(&self) -> StoredSettingsView {
        StoredSettingsView {
            base_url: self.base_url@,
            model: self.model@,
            hotkey: self.hotkey@,
            target_lang: self.target_lang@,
            api_key: self.api_key@,
        }
    }
}

pub open spec fn default_base_url() -> Seq<char> {
    "https://api.openai.com/v1"@
}

pub open spec fn default_model() -> Seq<char> {
    "gpt-4o-mini"@
}

pub open spec fn default_hotkey() -> Seq<char> {
    "Alt+T"@
}

pub open spec fn default_target_lang() -> Seq<char> {
    "简体中文"@
}

/// The settings of a fresh installation.
pub open spec fn default_settings() -> StoredSettingsView {
    StoredSettingsView {
        base_url: default_base_url(),
        model: default_model(),
        hotkey: default_hotkey(),
        target_lang: default_target_lang(),
        api_key: Seq::empty(),
    }
}

impl Default for StoredSettings {
    /// The OpenAI endpoint, `gpt-4o-mini`, `Alt+T`, Simplified Chinese, and
    /// no API key.
    fn default() -> (s: Self)
        ensures
            s@ == default_settings(),
    {
        StoredSettings {
            base_url: String::from_str("https://api.openai.com/v1"),
            model: String::from_str("gpt-4o-mini"),
            hotkey: String::from_str("Alt+T"),
            target_lang: String::from_str("简体中文"),
            api_key: String::new(),
        }
    }
}

/// The settings as the settings page sees them: the API key itself never
/// leaves, only whether there is one and its masked tail.
pub struct SettingsPayload {
    pub base_url: String,
    pub model: String,
    pub hotkey: String,
    pub target_lang: String,
    pub api_key_set: bool,
    pub api_key_preview: Option<String>,
}

/// The mathematical content of a [`SettingsPayload`].
pub struct SettingsPayloadView {
    pub base_url: Seq<char>,
    pub model: Seq<char>,
    pub hotkey: Seq<char>,
    pub target_lang: Seq<char>,
    pub api_key_set: bool,
    pub api_key_preview: Option<Seq<char>>,
}

impl View for SettingsPayload {
    type V = SettingsPayloadView;

    open spec fn view(&self) -> SettingsPayloadView {
        SettingsPayloadView {
            base_url: self.base_url@,
            model: self.model@,
            hotkey: self.hotkey@,
            target_lang: self.target_lang@,
            api_key_set: self.api_key_set,
            api_key_preview: self.api_key_preview.deep_view(),
        }
    }
}

/// An edit of the settings, as the settings page sends it; `api_key` is
/// `None` (or blank) where the user typed no new key.
pub struct SaveSettingsRequest {
    pub base_url: String,
    pub model: String,
    pub hotkey: String,
    pub target_lang: String,
    pub api_key: Option<String>,
}

/// The last (at most) `n` characters of `s`.
pub open spec fn tail(s: Seq<char>, n: nat) -> Seq<char> {
    if s.len() <= n {
        s
    } else {
        s.skip(s.len() - n)
    }
}

/// The prefix that hides the API key.
pub open spec fn mask_prefix() -> Seq<char> {
    "•••••••••••• "@
}

/// A key shown as a row of dots and its last four characters.
pub open spec fn masked_key(api_key: Seq<char>) -> Seq<char> {
    mask_prefix() + tail(api_key, 4)
}

/// Masks an API key: a row of dots, a space, and the key's last four
/// characters (all of it where it is shorter).
pub fn mask_api_key(api_key: &str) -> (r: String)
    ensures
        r@ == masked_key(api_key@),
{
    let k = chars_of(api_key);
    let start: usize = if k.len() <= 4 {
        0
    } else {
        k.len() - 4
    };
    let mut m = chars_of("•••••••••••• ");
    let mut i: usize = start;
    while i < k.len()
        invariant
            start <= i <= k.len(),
            k@ == api_key@,
            start == if k.len() <= 4 { 0 } else { k.len() - 4 },
            m@ == mask_prefix() + k@.subrange(start as int, i as int),
        decreases k.len() - i,
    {
        m.push(k[i]);
        i = i + 1;
        assert(m@ =~= mask_prefix() + k@.subrange(start as int, i as int));
    }
    assert(k@.subrange(start as int, k@.len() as int) =~= tail(api_key@, 4));
    string_of(m.as_slice())
}

/// What the settings page is shown for `settings`.
pub open spec fn settings_view_of(s: StoredSettingsView) -> SettingsPayloadView {
    SettingsPayloadView {
        base_url: s.base_url,
        model: s.model,
        hotkey: s.hotkey,
        target_lang: s.target_lang,
        api_key_set: !is_blank(s.api_key),
        api_key_preview: if !is_blank(s.api_key) {
            Some(masked_key(s.api_key))
        } else {
            None
        },
    }
}

/// The settings as the settings page sees them.
pub fn settings_payload(settings: StoredSettings) -> (p: SettingsPayload)
    ensures
        p@ == settings_view_of(settings@),
{
    let k = chars_of(settings.api_key.as_str());
    let has_key = trim_chars(&k).len() > 0;
    let preview = if has_key {
        Some(mask_api_key(settings.api_key.as_str()))
    } else {
        None
    };
    SettingsPayload {
        base_url: settings.base_url,
        model: settings.model,
        hotkey: settings.hotkey,
        target_lang: settings.target_lang,
        api_key_preview: preview,
        api_key_set: has_key,
    }
}

/// Whether the settings hold no usable API key, so that the settings page
/// must be opened at start-up.
pub fn api_key_missing(settings: &StoredSettings) -> (b: bool)
    ensures
        b == is_blank(settings.api_key@),
{
    let k = chars_of(settings.api_key.as_str());
    trim_chars(&k).len() == 0
}

/// The base URL with its scheme made explicit: trimmed, without trailing
/// slashes, `https://` added where no `http://` or `https://` is given, and
/// the default endpoint for an empty input.
pub open spec fn normalized_base_url(input: Seq<char>) -> Seq<char> {
    let t = strip_trailing(trim(input), '/');
    let with_scheme = if "http://"@.is_prefix_of(t) || "https://"@.is_prefix_of(t) {
        t
    } else if t.len() == 0 {
        default_base_url()
    } else {
        "https://"@ + t
    };
    strip_trailing(with_scheme, '/')
}

/// Normalises an OpenAI-compatible base URL.
pub fn normalize_base_url(input: &str) -> (r: String)
    ensures
        r@ == normalized_base_url(input@),
{
    let c = chars_of(input);
    let trimmed = trim_chars(&c);
    let t = strip_trailing_chars(&trimmed, '/');
    let http = chars_of("http://");
    let https = chars_of("https://");
    let with_scheme = if starts_with_chars(&t, &http) || starts_with_chars(&t, &https) {
        t
    } else if t.len() == 0 {
        chars_of("https://api.openai.com/v1")
    } else {
        concat_chars(&https, &t)
    };
    let r = strip_trailing_chars(&with_scheme, '/');
    string_of(r.as_slice())
}

/// The path that a chat completion request goes to.
pub open spec fn completions_suffix() -> Seq<char> {
    "/chat/completions"@
}

/// The chat completion endpoint for a base URL: the normalised base URL, with
/// `/chat/completions` appended unless it ends so already.
pub open spec fn completions_url(base_url: Seq<char>) -> Seq<char> {
    let base = normalized_base_url(base_url);
    if completions_suffix().is_suffix_of(base) {
        base
    } else {
        base + completions_suffix()
    }
}

/// Builds the chat completion endpoint from a base URL, adding
/// `/chat/completions` only once.
pub fn chat_completions_url(base_url: &str) -> (r: String)
    ensures
        r@ == completions_url(base_url@),
{
    let base = normalize_base_url(base_url);
    let b = chars_of(base.as_str());
    let suffix = chars_of("/chat/completions");
    if ends_with_chars(&b, &suffix) {
        base
    } else {
        let full = concat_chars(&b, &suffix);
        string_of(full.as_slice())
    }
}

/// A field trimmed, or `default` where nothing is left.
pub open spec fn trimmed_or(field: Seq<char>, default: Seq<char>) -> Seq<char> {
    if trim(field).len() == 0 {
        default
    } else {
        trim(field)
    }
}

/// The settings after an edit: the base URL normalised, the other fields
/// trimmed or defaulted where blank, and the API key replaced only by a new
/// key that is not blank.
pub open spec fn merged_settings(
    current: StoredSettingsView,
    base_url: Seq<char>,
    model: Seq<char>,
    hotkey: Seq<char>,
    target_lang: Seq<char>,
    api_key: Option<Seq<char>>,
) -> StoredSettingsView {
    StoredSettingsView {
        base_url: normalized_base_url(base_url),
        model: trimmed_or(model, default_model()),
        hotkey: trimmed_or(hotkey, default_hotkey()),
        target_lang: trimmed_or(target_lang, default_target_lang()),
        api_key: match api_key {
            Some(k) => if trim(k).len() > 0 {
                trim(k)
            } else {
                current.api_key
            },
            None => current.api_key,
        },
    }
}

/// A field trimmed, or the default where nothing is left.
fn trimmed_or_default(field: &str, default: &str) -> (r: String)
    ensures
        r@ == trimmed_or(field@, default@),
{
    let c = chars_of(field);
    let t = trim_chars(&c);
    if t.len() == 0 {
        String::from_str(default)
    } else {
        string_of(t.as_slice())
    }
}

/// Applies an edit from the settings page to the current settings.
pub fn merge_settings(current: &StoredSettings, request: SaveSettingsRequest) -> (next:
    StoredSettings)
    ensures
        next@ == merged_settings(
            current@,
            request.base_url@,
            request.model@,
            request.hotkey@,
            request.target_lang@,
            request.api_key.deep_view(),
        ),
{
    let api_key = match &request.api_key {
        Some(k) => {
            let kc = chars_of(k.as_str());
            let t = trim_chars(&kc);
            if t.len() > 0 {
                string_of(t.as_slice())
            } else {
                current.api_key.clone()
            }
        },
        None => current.api_key.clone(),
    };
    StoredSettings {
        base_url: normalize_base_url(request.base_url.as_str()),
        model: trimmed_or_default(request.model.as_str(), "gpt-4o-mini"),
        hotkey: trimmed_or_default(request.hotkey.as_str(), "Alt+T"),
        target_lang: trimmed_or_default(request.target_lang.as_str(), "简体中文"),
        api_key,
    }
}

/// A field kept as it is, or `default` where it is blank.
pub open spec fn kept_or(field: Seq<char>, default: Seq<char>) -> Seq<char> {
    if is_blank(field) {
        default
    } else {
        field
    }
}

/// Settings read from disk with each blank field but the API key replaced by
/// its default.
pub open spec fn filled_settings(s: StoredSettingsView) -> StoredSettingsView {
    StoredSettingsView {
        base_url: kept_or(s.base_url, default_base_url()),
        model: kept_or(s.model, default_model()),
        hotkey: kept_or(s.hotkey, default_hotkey()),
        target_lang: kept_or(s.target_lang, default_target_lang()),
        api_key: s.api_key,
    }
}

/// A field kept, or the default where it is blank.
fn kept_or_default(field: String, default: &str) -> (r: String)
    ensures
        r@ == kept_or(field@, default@),
{
    let c = chars_of(field.as_str());
    if trim_chars(&c).len() == 0 {
        String::from_str(default)
    } else {
        field
    }
}

/// Completes settings read from `settings.json`: every blank field but the
/// API key takes its default.
pub fn fill_missing_settings(settings: StoredSettings) -> (r: StoredSettings)
    ensures
        r@ == filled_settings(settings@),
{
    StoredSettings {
        base_url: kept_or_default(settings.base_url, "https://api.openai.com/v1"),
        model: kept_or_default(settings.model, "gpt-4o-mini"),
        hotkey: kept_or_default(settings.hotkey, "Alt+T"),
        target_lang: kept_or_default(settings.target_lang, "简体中文"),
        api_key: settings.api_key,
    }
}

/// `true` or `false`, as `format!("{}")` writes a `bool`.
pub open spec fn bool_text(b: bool) -> Seq<char> {
    if b {
        "true"@
    } else {
        "false"@
    }
}

/// The log line that records what a save changed.
pub open spec fn change_summary_text(current: StoredSettingsView, next: StoredSettingsView) -> Seq<
    char,
> {
    "base_url_changed="@ + bool_text(current.base_url != next.base_url) + " model_changed="@
        + bool_text(current.model != next.model) + " target_lang_changed="@ + bool_text(
        current.target_lang != next.target_lang,
    ) + " api_key_replaced="@ + bool_text(current.api_key != next.api_key) + " transport="@
        + crate::api::transport_text(next.base_url)
}

fn append_bool(m: &mut Vec<char>, b: bool)
    ensures
        final(m)@ == old(m)@ + bool_text(b),
{
    if b {
        append_str(m, "true");
    } else {
        append_str(m, "false");
    }
}

/// Describes what a save changed, for the log; the values themselves are
/// not written.
pub fn settings_change_summary(current: &StoredSettings, next: &StoredSettings) -> (r: String)
    ensures
        r@ == change_summary_text(current@, next@),
{
    let mut m = chars_of("base_url_changed=");
    append_bool(&mut m, current.base_url != next.base_url);
    append_str(&mut m, " model_changed=");
    append_bool(&mut m, current.model != next.model);
    append_str(&mut m, " target_lang_changed=");
    append_bool(&mut m, current.target_lang != next.target_lang);
    append_str(&mut m, " api_key_replaced=");
    append_bool(&mut m, current.api_key != next.api_key);
    append_str(&mut m, " transport=");
    append_str(&mut m, crate::api::transport_label(next.base_url.as_str()));
    string_of(m.as_slice())
}

proof fn lemma_strip_trailing_end(s: Seq<char>, c: char)
    ensures
        strip_trailing(s, c).len() == 0 || strip_trailing(s, c).last() != c,
        strip_trailing(s, c).is_prefix_of(s),
    decreases s.len(),
{
    if s.len() > 0 && s.last() == c {
        lemma_strip_trailing_end(s.drop_last(), c);
    }
}

/// A URL that already has a scheme and ends in neither whitespace nor `/`
/// is left as it is by normalisation.
proof fn lemma_normalized_fixed(r: Seq<char>)
    requires
        "http://"@.is_prefix_of(r) || "https://"@.is_prefix_of(r),
        !is_whitespace(r.last()),
        r.last() != '/',
    ensures
        normalized_base_url(r) == r,
{
    reveal_strlit("http://");
    reveal_strlit("https://");
    assert(r.len() > 0);
    if "http://"@.is_prefix_of(r) {
        assert(r.subrange(0, 7)[0] == r[0]);
    } else {
        assert(r.subrange(0, 8)[0] == r[0]);
    }
    assert(r[0] == 'h');
    assert(trim_start(r) == r);
    assert(trim_end(r) == r);
    assert(strip_trailing(r, '/') == r);
}

/// A normalised base URL always names its scheme (`http://` or `https://`)
/// and never ends with `/`.
pub proof fn normalized_base_url_has_scheme(input: Seq<char>)
    ensures
        "http://"@.is_prefix_of(normalized_base_url(input)) || "https://"@.is_prefix_of(
            normalized_base_url(input),
        ),
        normalized_base_url(input).len() > 0,
        normalized_base_url(input).last() != '/',
{
    reveal_strlit("http://");
    reveal_strlit("https://");
    reveal_strlit("https://api.openai.com/v1");
    let t = strip_trailing(trim(input), '/');
    lemma_strip_trailing_end(trim(input), '/');
    if "http://"@.is_prefix_of(t) || "https://"@.is_prefix_of(t) {
        assert(t.len() > 0);
        assert(strip_trailing(t, '/') == t);
    } else if t.len() == 0 {
        let d = default_base_url();
        assert(d.last() == '1');
        assert(strip_trailing(d, '/') == d);
        assert("https://"@ =~= d.take(8));
    } else {
        let w = "https://"@ + t;
        assert(w.last() == t.last());
        assert(strip_trailing(w, '/') == w);
        assert("https://"@ =~= w.take(8));
    }
}

/// Normalising a base URL a second time changes nothing, unless the first
/// result ends with whitespace (an input such as `"a/ /"` keeps the space
/// before its last slash, which the second pass trims away).
pub proof fn normalize_base_url_idempotent(input: Seq<char>)
    requires
        !is_whitespace(normalized_base_url(input).last()),
    ensures
        normalized_base_url(normalized_base_url(input)) == normalized_base_url(input),
{
    normalized_base_url_has_scheme(input);
    lemma_normalized_fixed(normalized_base_url(input));
}

/// The completion endpoint always ends with `/chat/completions`, and
/// building it from an endpoint gives that endpoint back: the suffix is
/// added only once.
pub proof fn chat_completions_url_idempotent(base_url: Seq<char>)
    ensures
        completions_suffix().is_suffix_of(completions_url(base_url)),
        completions_url(completions_url(base_url)) == completions_url(base_url),
{
    reveal_strlit("/chat/completions");
    reveal_strlit("http://");
    reveal_strlit("https://");
    let base = normalized_base_url(base_url);
    normalized_base_url_has_scheme(base_url);
    let c = completions_url(base_url);
    if completions_suffix().is_suffix_of(base) {
        assert(c == base);
        assert(c.last() == completions_suffix().last());
    } else {
        assert(c == base + completions_suffix());
        assert(c.skip(c.len() - completions_suffix().len()) =~= completions_suffix());
        assert(c.last() == completions_suffix().last());
        if "http://"@.is_prefix_of(base) {
            assert(c.take(7) =~= base.take(7));
        } else {
            assert(c.take(8) =~= base.take(8));
        }
    }
    assert(c.last() == 's');
    lemma_normalized_fixed(c);
}

/// An endpoint that already names its scheme and ends with
/// `/chat/completions` is used without modification.
pub proof fn complete_endpoint_is_kept(url: Seq<char>)
    requires
        "http://"@.is_prefix_of(url) || "https://"@.is_prefix_of(url),
        completions_suffix().is_suffix_of(url),
    ensures
        completions_url(url) == url,
{
    reveal_strlit("/chat/completions");
    assert(url.last() == completions_suffix().last());
    assert(url.last() == 's');
    lemma_normalized_fixed(url);
}

/// The log line of a save tells only which fields changed and how the API
/// is reached: saves that change the same fields of settings reached the
/// same way are logged alike, whatever the values.
pub proof fn change_summary_hides_values(
    c1: StoredSettingsView,
    n1: StoredSettingsView,
    c2: StoredSettingsView,
    n2: StoredSettingsView,
)
    requires
        (c1.base_url != n1.base_url) == (c2.base_url != n2.base_url),
        (c1.model != n1.model) == (c2.model != n2.model),
        (c1.target_lang != n1.target_lang) == (c2.target_lang != n2.target_lang),
        (c1.api_key != n1.api_key) == (c2.api_key != n2.api_key),
        crate::api::transport_text(n1.base_url) == crate::api::transport_text(n2.base_url),
    ensures
        change_summary_text(c1, n1) == change_summary_text(c2, n2),
{
}

/// Saving settings without a new API key (none, or a blank one) keeps the
/// stored key; a new key is stored trimmed. The model, hotkey and target
/// language that a save stores are never blank.
pub proof fn merged_settings_keep_key_and_fill_fields(
    current: StoredSettingsView,
    base_url: Seq<char>,
    model: Seq<char>,
    hotkey: Seq<char>,
    target_lang: Seq<char>,
    api_key: Option<Seq<char>>,
)
    ensures
        ({
            let next = merged_settings(current, base_url, model, hotkey, target_lang, api_key);
            &&& (api_key is None || is_blank(api_key->0)) ==> next.api_key == current.api_key
            &&& (api_key is Some && !is_blank(api_key->0)) ==> next.api_key == trim(api_key->0)
            &&& !is_blank(next.model)
            &&& !is_blank(next.hotkey)
            &&& !is_blank(next.target_lang)
        }),
{
    crate::text::lemma_trim_twice(model);
    crate::text::lemma_trim_twice(hotkey);
    crate::text::lemma_trim_twice(target_lang);
    lemma_defaults_not_blank();
}

/// A save stores the model, hotkey and target language as typed, trimmed,
/// where they are not blank, and the defaults (`gpt-4o-mini`, `Alt+T`,
/// `简体中文`) only where they are blank.
pub proof fn merged_settings_keep_typed_fields(
    current: StoredSettingsView,
    base_url: Seq<char>,
    model: Seq<char>,
    hotkey: Seq<char>,
    target_lang: Seq<char>,
    api_key: Option<Seq<char>>,
)
    ensures
        ({
            let next = merged_settings(current, base_url, model, hotkey, target_lang, api_key);
            &&& !is_blank(model) ==> next.model == trim(model)
            &&& is_blank(model) ==> next.model == "gpt-4o-mini"@
            &&& !is_blank(hotkey) ==> next.hotkey == trim(hotkey)
            &&& is_blank(hotkey) ==> next.hotkey == "Alt+T"@
            &&& !is_blank(target_lang) ==> next.target_lang == trim(target_lang)
            &&& is_blank(target_lang) ==> next.target_lang == "简体中文"@
        }),
{
}

/// Loading keeps every stored field that is not blank exactly as stored,
/// and the API key always; only a blank field takes its default.
pub proof fn filled_settings_keep_stored_fields(s: StoredSettingsView)
    ensures
        !is_blank(s.base_url) ==> filled_settings(s).base_url == s.base_url,
        is_blank(s.base_url) ==> filled_settings(s).base_url == "https://api.openai.com/v1"@,
        !is_blank(s.model) ==> filled_settings(s).model == s.model,
        is_blank(s.model) ==> filled_settings(s).model == "gpt-4o-mini"@,
        !is_blank(s.hotkey) ==> filled_settings(s).hotkey == s.hotkey,
        is_blank(s.hotkey) ==> filled_settings(s).hotkey == "Alt+T"@,
        !is_blank(s.target_lang) ==> filled_settings(s).target_lang == s.target_lang,
        is_blank(s.target_lang) ==> filled_settings(s).target_lang == "简体中文"@,
        filled_settings(s).api_key == s.api_key,
{
}

proof fn lemma_defaults_not_blank()
    ensures
        !is_blank(default_base_url()),
        !is_blank(default_model()),
        !is_blank(default_hotkey()),
        !is_blank(default_target_lang()),
{
    reveal_strlit("https://api.openai.com/v1");
    reveal_strlit("gpt-4o-mini");
    reveal_strlit("Alt+T");
    reveal_strlit("简体中文");
    assert(!is_whitespace(default_base_url()[0]));
    assert(!is_whitespace(default_model()[0]));
    assert(!is_whitespace(default_hotkey()[0]));
    assert(!is_whitespace(default_target_lang()[0]));
    crate::text::lemma_trim_keeps_inner(default_base_url());
    crate::text::lemma_trim_keeps_inner(default_model());
    crate::text::lemma_trim_keeps_inner(default_hotkey());
    crate::text::lemma_trim_keeps_inner(default_target_lang());
}

/// Settings completed after loading have no blank field but the API key, and
/// completing them again changes nothing.
pub proof fn filled_settings_complete(s: StoredSettingsView)
    ensures
        !is_blank(filled_settings(s).base_url),
        !is_blank(filled_settings(s).model),
        !is_blank(filled_settings(s).hotkey),
        !is_blank(filled_settings(s).target_lang),
        filled_settings(filled_settings(s)) == filled_settings(s),
{
    lemma_defaults_not_blank();
}

/// The settings page learns nothing of the API key but whether there is
/// one and its last four characters (fewer where the key is shorter).
pub proof fn settings_view_hides_key(s: StoredSettingsView)
    ensures
        settings_view_of(s).api_key_set == !is_blank(s.api_key),
        settings_view_of(s).api_key_preview is Some <==> !is_blank(s.api_key),
        settings_view_of(s).api_key_preview matches Some(p) ==> {
            &&& p == mask_prefix() + tail(s.api_key, 4)
            &&& tail(s.api_key, 4).len() <= 4
            &&& tail(s.api_key, 4).is_suffix_of(s.api_key)
        },
{
    let t = tail(s.api_key, 4);
    if s.api_key.len() > 4 {
        assert(s.api_key.skip(s.api_key.len() - t.len()) =~= t);
    } else {
        assert(s.api_key.skip(0) =~= s.api_key);
    }
}

} // verus!
