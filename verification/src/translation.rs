//! One translation, from the selected text to the finished card: a state
//! machine whose steps the application performs (reading the settings,
//! calling the API, counting the word in the word list) and reports back.

use crate::float::{
    dismissible_state, error_card, error_float_update, FloatPayload, FloatPayloadView,
    FloatUpdate, FloatUpdateView,
};
use crate::text::{
    append_chars, append_str, decimal, decimal_chars, char_is_ascii_alphabetic, char_is_whitespace, chars_of, is_ascii_alphabetic, is_whitespace,
    lowercase, string_of, to_lowercase, trim, trim_chars,
};
use crate::Platform;
use vstd::prelude::*;

verus! {

/// Whether a text is a single English word: once trimmed, it is not empty,
/// holds no whitespace, only ASCII letters and hyphens, and at least one
/// letter.
pub open spec fn single_english_word(s: Seq<char>) -> bool {
    let t = trim(s);
    &&& t.len() > 0
    &&& forall|i: int| 0 <= i < t.len() ==> !is_whitespace(#[trigger] t[i])
    &&& forall|i: int| 0 <= i < t.len() ==> is_ascii_alphabetic(#[trigger] t[i]) || t[i] == '-'
    &&& exists|i: int| 0 <= i < t.len() && is_ascii_alphabetic(#[trigger] t[i])
}

/// Whether `text` is a single English word, which is translated by its
/// common senses and counted in the word list.
pub fn is_single_english_word(text: &str) -> (b: bool)
    ensures
        b == single_english_word(text@),
{
    let c = chars_of(text);
    let t = trim_chars(&c);
    if t.len() == 0 {
        return false;
    }
    let mut any_letter = false;
    let mut i: usize = 0;
    while i < t.len()
        invariant
            t@ == trim(text@),
            t.len() > 0,
            i <= t.len(),
            forall|k: int| 0 <= k < i ==> !is_whitespace(#[trigger] t@[k]),
            forall|k: int| 0 <= k < i ==> is_ascii_alphabetic(#[trigger] t@[k]) || t@[k] == '-',
            any_letter == exists|k: int| 0 <= k < i && is_ascii_alphabetic(#[trigger] t@[k]),
        decreases t.len() - i,
    {
        let ch = t[i];
        if char_is_whitespace(ch) {
            return false;
        }
        let letter = char_is_ascii_alphabetic(ch);
        if !letter && ch != '-' {
            return false;
        }
        if letter {
            any_letter = true;
        }
        i = i + 1;
    }
    any_letter
}

/// Where a translation stands.
pub enum TranslationPhase {
    /// Waiting for the API key from the settings.
    ReadingSettings,
    /// Waiting for the API's answer.
    Translating,
    /// Waiting for the word's count after storing this translation.
    CountingWord { translation: String },
    /// Done: the last action showed the final card.
    Finished,
}

/// A translation in progress.
pub struct TranslationJob {
    /// The selected text, trimmed.
    pub original: String,
    /// Whether `original` is a single English word.
    pub is_word: bool,
    pub phase: TranslationPhase,
}

/// What the application reports back to a translation.
pub enum TranslationEvent {
    /// The API key as the settings hold it.
    SettingsRead { api_key: String },
    /// The API's translation, or the message of its failure.
    TranslationReturned(Result<String, String>),
    /// The count of the word in the word list after storing it.
    WordCounted(i64),
}

/// What the application is to do next for a translation.
pub enum TranslationAction {
    /// Ask the API to translate `text` with this key.
    RequestTranslation { api_key: String, text: String, is_word: bool },
    /// Store `translation` for `word` in the word list and report its count.
    CountWord { word: String, translation: String },
    /// Show this final card; the translation is over.
    Finish(FloatUpdate),
}

pub enum TranslationPhaseView {
    ReadingSettings,
    Translating,
    CountingWord(Seq<char>),
    Finished,
}

pub struct TranslationJobView {
    pub original: Seq<char>,
    pub is_word: bool,
    pub phase: TranslationPhaseView,
}

pub enum TranslationEventView {
    SettingsRead(Seq<char>),
    TranslationReturned(Result<Seq<char>, Seq<char>>),
    WordCounted(i64),
}

pub enum TranslationActionView {
    RequestTranslation { api_key: Seq<char>, text: Seq<char>, is_word: bool },
    CountWord { word: Seq<char>, translation: Seq<char> },
    Finish(FloatUpdateView),
}

impl View for TranslationPhase {
    type V = TranslationPhaseView;

    open spec fn view(&self) -> TranslationPhaseView {
        match self {
            TranslationPhase::ReadingSettings => TranslationPhaseView::ReadingSettings,
            TranslationPhase::Translating => TranslationPhaseView::Translating,
            TranslationPhase::CountingWord { translation } => TranslationPhaseView::CountingWord(
                translation@,
            ),
            TranslationPhase::Finished => TranslationPhaseView::Finished,
        }
    }
}

impl View for TranslationJob {
    type V = TranslationJobView;

    open spec fn view(&self) -> TranslationJobView {
        TranslationJobView { original: self.original@, is_word: self.is_word, phase: self.phase@ }
    }
}

impl View for TranslationEvent {
    type V = TranslationEventView;

    open spec fn view(&self) -> TranslationEventView {
        match self {
            TranslationEvent::SettingsRead { api_key } => TranslationEventView::SettingsRead(
                api_key@,
            ),
            TranslationEvent::TranslationReturned(r) => TranslationEventView::TranslationReturned(
                match r {
                    Ok(t) => Ok(t@),
                    Err(m) => Err(m@),
                },
            ),
            TranslationEvent::WordCounted(n) => TranslationEventView::WordCounted(*n),
        }
    }
}

impl View for TranslationAction {
    type V = TranslationActionView;

    open spec fn view(&self) -> TranslationActionView {
        match self {
            TranslationAction::RequestTranslation {
                api_key,
                text,
                is_word,
            } => TranslationActionView::RequestTranslation {
                api_key: api_key@,
                text: text@,
                is_word: *is_word,
            },
            TranslationAction::CountWord { word, translation } => TranslationActionView::CountWord {
                word: word@,
                translation: translation@,
            },
            TranslationAction::Finish(u) => TranslationActionView::Finish(u@),
        }
    }
}

/// The card shown while the translation runs.
pub open spec fn loading_update(original: Seq<char>, is_word: bool) -> FloatUpdateView {
    FloatUpdateView {
        payload: FloatPayloadView {
            state: "loading"@,
            original,
            translation: None,
            is_word,
            count: None,
            error: None,
        },
        width: if is_word { 250 } else { 320 },
        height: 96,
    }
}

/// The message shown when no API key is set.
pub open spec fn missing_key_text() -> Seq<char> {
    "请先点击菜单栏图标，在「设置…」里填写 API Key。"@
}

/// The card that reports a failure.
pub open spec fn failure_update(original: Seq<char>, is_word: bool, message: Seq<char>) -> FloatUpdateView {
    FloatUpdateView { payload: error_card(original, is_word, message), width: 300, height: 150 }
}

/// The card with the translation of a sentence.
pub open spec fn sentence_update(original: Seq<char>, translation: Seq<char>) -> FloatUpdateView {
    FloatUpdateView {
        payload: FloatPayloadView {
            state: "sentence"@,
            original,
            translation: Some(translation),
            is_word: false,
            count: None,
            error: None,
        },
        width: 340,
        height: 150,
    }
}

/// The card with the translation of a word and how often it was looked up.
pub open spec fn word_update(original: Seq<char>, translation: Seq<char>, count: i64) -> FloatUpdateView {
    FloatUpdateView {
        payload: FloatPayloadView {
            state: "word"@,
            original,
            translation: Some(translation),
            is_word: true,
            count: Some(count),
            error: None,
        },
        width: 300,
        height: 150,
    }
}

/// Whether `event` is the report that a job in `phase` waits for.
pub open spec fn event_fits(phase: TranslationPhaseView, event: TranslationEventView) -> bool {
    match (phase, event) {
        (TranslationPhaseView::ReadingSettings, TranslationEventView::SettingsRead(_)) => true,
        (TranslationPhaseView::Translating, TranslationEventView::TranslationReturned(_)) => true,
        (TranslationPhaseView::CountingWord(_), TranslationEventView::WordCounted(_)) => true,
        _ => false,
    }
}

/// One step of a translation: the job after `event`, and what to do next.
pub open spec fn translation_step(job: TranslationJobView, event: TranslationEventView) -> (
    TranslationJobView,
    TranslationActionView,
) {
    let finished = TranslationJobView { phase: TranslationPhaseView::Finished, ..job };
    match event {
        TranslationEventView::SettingsRead(api_key) => if trim(api_key).len() == 0 {
            (
                finished,
                TranslationActionView::Finish(
                    failure_update(job.original, job.is_word, missing_key_text()),
                ),
            )
        } else {
            (
                TranslationJobView { phase: TranslationPhaseView::Translating, ..job },
                TranslationActionView::RequestTranslation {
                    api_key: trim(api_key),
                    text: job.original,
                    is_word: job.is_word,
                },
            )
        },
        TranslationEventView::TranslationReturned(result) => match result {
            Err(message) => (
                finished,
                TranslationActionView::Finish(failure_update(job.original, job.is_word, message)),
            ),
            Ok(translation) => if job.is_word {
                (
                    TranslationJobView {
                        phase: TranslationPhaseView::CountingWord(translation),
                        ..job
                    },
                    TranslationActionView::CountWord {
                        word: lowercase(job.original),
                        translation,
                    },
                )
            } else {
                (
                    finished,
                    TranslationActionView::Finish(sentence_update(job.original, translation)),
                )
            },
        },
        TranslationEventView::WordCounted(count) => match job.phase {
            TranslationPhaseView::CountingWord(translation) => (
                finished,
                TranslationActionView::Finish(word_update(job.original, translation, count)),
            ),
            // A count is only awaited while counting a word (see `event_fits`).
            _ => (
                finished,
                TranslationActionView::Finish(failure_update(job.original, job.is_word, Seq::empty())),
            ),
        },
    }
}

/// Starts translating `selected`: the job waits for the settings, and the
/// loading card is to be shown.
pub fn start_translation(selected: &str) -> (r: (TranslationJob, FloatUpdate))
    ensures
        r.0@ == (TranslationJobView {
            original: trim(selected@),
            is_word: single_english_word(trim(selected@)),
            phase: TranslationPhaseView::ReadingSettings,
        }),
        r.1@ == loading_update(trim(selected@), single_english_word(trim(selected@))),
{
    let c = chars_of(selected);
    let t = trim_chars(&c);
    let original = string_of(t.as_slice());
    let is_word = is_single_english_word(original.as_str());
    let loading = FloatUpdate {
        payload: FloatPayload {
            state: String::from_str("loading"),
            original: original.clone(),
            translation: None,
            is_word,
            count: None,
            error: None,
        },
        width: if is_word {
            250
        } else {
            320
        },
        height: 96,
    };
    (TranslationJob { original, is_word, phase: TranslationPhase::ReadingSettings }, loading)
}

/// The card that reports a failure, as an update.
fn failure_float(original: &String, is_word: bool, message: String) -> (u: FloatUpdate)
    ensures
        u@ == failure_update(original@, is_word, message@),
{
    FloatUpdate {
        payload: FloatPayload {
            state: String::from_str("error"),
            original: original.clone(),
            translation: None,
            is_word,
            count: None,
            error: Some(message),
        },
        width: 300,
        height: 150,
    }
}

/// Whether `event` is the report that `job` waits for.
pub fn translation_awaits(job: &TranslationJob, event: &TranslationEvent) -> (b: bool)
    ensures
        b == event_fits(job.phase@, event@),
{
    match (&job.phase, event) {
        (TranslationPhase::ReadingSettings, TranslationEvent::SettingsRead { .. }) => true,
        (TranslationPhase::Translating, TranslationEvent::TranslationReturned(_)) => true,
        (TranslationPhase::CountingWord { .. }, TranslationEvent::WordCounted(_)) => true,
        _ => false,
    }
}

/// Advances a translation by the event the application reports.
pub fn advance_translation(job: TranslationJob, event: TranslationEvent) -> (r: (
    TranslationJob,
    TranslationAction,
))
    requires
        event_fits(job.phase@, event@),
    ensures
        (r.0@, r.1@) == translation_step(job@, event@),
{
    let TranslationJob { original, is_word, phase } = job;
    match event {
        TranslationEvent::SettingsRead { api_key } => {
            let kc = chars_of(api_key.as_str());
            let key = trim_chars(&kc);
            if key.len() == 0 {
                let u = failure_float(
                    &original,
                    is_word,
                    String::from_str("请先点击菜单栏图标，在「设置…」里填写 API Key。"),
                );
                (
                    TranslationJob { original, is_word, phase: TranslationPhase::Finished },
                    TranslationAction::Finish(u),
                )
            } else {
                let text = original.clone();
                (
                    TranslationJob { original, is_word, phase: TranslationPhase::Translating },
                    TranslationAction::RequestTranslation {
                        api_key: string_of(key.as_slice()),
                        text,
                        is_word,
                    },
                )
            }
        },
        TranslationEvent::TranslationReturned(result) => match result {
            Err(message) => {
                let u = failure_float(&original, is_word, message);
                (
                    TranslationJob { original, is_word, phase: TranslationPhase::Finished },
                    TranslationAction::Finish(u),
                )
            },
            Ok(translation) => {
                if is_word {
                    let word = to_lowercase(original.as_str());
                    let kept = translation.clone();
                    (
                        TranslationJob {
                            original,
                            is_word,
                            phase: TranslationPhase::CountingWord { translation: kept },
                        },
                        TranslationAction::CountWord { word, translation },
                    )
                } else {
                    let u = FloatUpdate {
                        payload: FloatPayload {
                            state: String::from_str("sentence"),
                            original: original.clone(),
                            translation: Some(translation),
                            is_word: false,
                            count: None,
                            error: None,
                        },
                        width: 340,
                        height: 150,
                    };
                    (
                        TranslationJob { original, is_word, phase: TranslationPhase::Finished },
                        TranslationAction::Finish(u),
                    )
                }
            },
        },
        TranslationEvent::WordCounted(count) => match phase {
            TranslationPhase::CountingWord { translation } => {
                let u = FloatUpdate {
                    payload: FloatPayload {
                        state: String::from_str("word"),
                        original: original.clone(),
                        translation: Some(translation),
                        is_word: true,
                        count: Some(count),
                        error: None,
                    },
                    width: 300,
                    height: 150,
                };
                (
                    TranslationJob { original, is_word, phase: TranslationPhase::Finished },
                    TranslationAction::Finish(u),
                )
            },
            _ => {
                // Unreachable: a count is only awaited while counting a word.
                proof {
                    assert(false);
                }
                let u = failure_float(&original, is_word, String::new());
                (
                    TranslationJob { original, is_word, phase: TranslationPhase::Finished },
                    TranslationAction::Finish(u),
                )
            },
        },
    }
}

/// How far a job is from finishing.
pub open spec fn steps_left(phase: TranslationPhaseView) -> nat {
    match phase {
        TranslationPhaseView::ReadingSettings => 3,
        TranslationPhaseView::Translating => 2,
        TranslationPhaseView::CountingWord(_) => 1,
        TranslationPhaseView::Finished => 0,
    }
}

/// Every step of a translation brings it closer to its end, so a
/// translation is over after at most three reports; a job finishes exactly
/// when the action is to show the final card, and the text and its
/// word-ness stay as they were at the start.
pub proof fn translation_step_progresses(job: TranslationJobView, event: TranslationEventView)
    requires
        event_fits(job.phase, event),
    ensures
        steps_left(translation_step(job, event).0.phase) < steps_left(job.phase),
        (translation_step(job, event).0.phase == TranslationPhaseView::Finished) <==> (
        translation_step(job, event).1 is Finish),
        translation_step(job, event).0.original == job.original,
        translation_step(job, event).0.is_word == job.is_word,
{
}

/// The card of a running translation stays up, and every final card may be
/// dismissed; every card shows the text being translated, and a card
/// carries a count exactly when it shows a word's translation.
pub proof fn translation_cards_are_consistent(
    job: TranslationJobView,
    event: TranslationEventView,
)
    requires
        event_fits(job.phase, event),
    ensures
        !dismissible_state(loading_update(job.original, job.is_word).payload.state),
        translation_step(job, event).1 matches TranslationActionView::Finish(u) ==> {
            &&& dismissible_state(u.payload.state)
            &&& u.payload.original == job.original
            &&& (u.payload.count is Some <==> u.payload.state == "word"@)
        },
{
    reveal_strlit("loading");
    reveal_strlit("word");
    reveal_strlit("sentence");
    reveal_strlit("error");
    assert("loading"@[0] != "word"@[0]);
    assert("loading"@[0] != "sentence"@[0]);
    assert("loading"@[0] != "error"@[0]);
    assert("sentence"@[0] != "word"@[0]);
    assert("error"@[0] != "word"@[0]);
}

/// A translation with no API key set ends at once with the card that asks
/// for one; the API is not called.
pub proof fn translation_needs_api_key(job: TranslationJobView, api_key: Seq<char>)
    requires
        job.phase == TranslationPhaseView::ReadingSettings,
        trim(api_key).len() == 0,
    ensures
        translation_step(job, TranslationEventView::SettingsRead(api_key)).1
            == TranslationActionView::Finish(failure_update(job.original, job.is_word, missing_key_text())),
{
}

/// Only a single English word is written to the word list, only after its
/// translation succeeded, under its lower-cased form and with that
/// translation; phrases, sentences, other text and failed translations
/// never are.
pub proof fn only_translated_words_are_stored(job: TranslationJobView, event: TranslationEventView)
    requires
        event_fits(job.phase, event),
    ensures
        translation_step(job, event).1 matches TranslationActionView::CountWord {
            word,
            translation,
        } ==> {
            &&& job.is_word
            &&& event == TranslationEventView::TranslationReturned(Ok(translation))
            &&& word == lowercase(job.original)
        },
{
}

/// The final card shows exactly the text that the API returned: a sentence
/// as soon as the answer arrives, a word once it has been counted, with
/// that count; the selected text stays the card's original.
pub proof fn translation_card_shows_the_answer(
    job: TranslationJobView,
    translation: Seq<char>,
    count: i64,
)
    requires
        job.phase == TranslationPhaseView::Translating,
    ensures
        !job.is_word ==> (translation_step(
            job,
            TranslationEventView::TranslationReturned(Ok(translation)),
        ).1 matches TranslationActionView::Finish(u) && u.payload.translation == Some(translation)
            && u.payload.state == "sentence"@ && u.payload.original == job.original
            && u.payload.error is None),
        job.is_word ==> ({
            let (next, action) = translation_step(
                job,
                TranslationEventView::TranslationReturned(Ok(translation)),
            );
            &&& action matches TranslationActionView::CountWord { translation: stored, .. }
                && stored == translation
            &&& translation_step(next, TranslationEventView::WordCounted(count)).1 matches TranslationActionView::Finish(u)
                && u.payload.translation == Some(translation) && u.payload.count == Some(count)
                && u.payload.state == "word"@ && u.payload.original == job.original
                && u.payload.error is None
        }),
{
}

/// A key that is not blank sends the selected text itself, with the key
/// trimmed, for translation; a failed translation ends with an error card
/// that shows the failure's message and no translation.
pub proof fn translation_requests_and_reports_failures(
    job: TranslationJobView,
    api_key: Seq<char>,
    message: Seq<char>,
)
    ensures
        trim(api_key).len() > 0 ==> translation_step(
            job,
            TranslationEventView::SettingsRead(api_key),
        ).1 == (TranslationActionView::RequestTranslation {
            api_key: trim(api_key),
            text: job.original,
            is_word: job.is_word,
        }),
        translation_step(job, TranslationEventView::TranslationReturned(Err(message))).1 matches TranslationActionView::Finish(u)
            && u.payload.state == "error"@ && u.payload.error == Some(message)
            && u.payload.translation is None && u.payload.original == job.original,
{
}

/// A text counts as a single English word exactly when, once trimmed, it is
/// not empty, every character is an ASCII letter (`A`-`Z`, `a`-`z`) or a
/// hyphen, and at least one is a letter.
pub proof fn single_words_are_letters_and_hyphens(s: Seq<char>)
    ensures
        single_english_word(s) <==> {
            let t = trim(s);
            &&& t.len() > 0
            &&& forall|i: int|
                0 <= i < t.len() ==> {
                    let u = (#[trigger] t[i]) as u32;
                    (0x41 <= u <= 0x5a) || (0x61 <= u <= 0x7a) || u == 0x2d
                }
            &&& exists|i: int|
                0 <= i < t.len() && {
                    let u = (#[trigger] t[i]) as u32;
                    (0x41 <= u <= 0x5a) || (0x61 <= u <= 0x7a)
                }
        },
{
    let t = trim(s);
    if single_english_word(s) {
        assert forall|i: int| 0 <= i < t.len() implies {
            let u = (#[trigger] t[i]) as u32;
            (0x41 <= u <= 0x5a) || (0x61 <= u <= 0x7a) || u == 0x2d
        } by {
            assert(is_ascii_alphabetic(t[i]) || t[i] == '-');
        }
    }
    if ({
        &&& t.len() > 0
        &&& forall|i: int|
            0 <= i < t.len() ==> {
                let u = (#[trigger] t[i]) as u32;
                (0x41 <= u <= 0x5a) || (0x61 <= u <= 0x7a) || u == 0x2d
            }
        &&& exists|i: int|
            0 <= i < t.len() && {
                let u = (#[trigger] t[i]) as u32;
                (0x41 <= u <= 0x5a) || (0x61 <= u <= 0x7a)
            }
    }) {
        assert forall|i: int| 0 <= i < t.len() implies !is_whitespace(#[trigger] t[i]) by {
            let u = t[i] as u32;
            assert((0x41 <= u <= 0x5a) || (0x61 <= u <= 0x7a) || u == 0x2d);
        }
        assert forall|i: int| 0 <= i < t.len() implies is_ascii_alphabetic(#[trigger] t[i])
            || t[i] == '-' by {
            let u = t[i] as u32;
            assert((0x41 <= u <= 0x5a) || (0x61 <= u <= 0x7a) || u == 0x2d);
            assert(('-' as u32) == 0x2d);
            if !is_ascii_alphabetic(t[i]) {
                vstd::utf8::char_u32_cast(t[i], u);
                vstd::utf8::char_u32_cast('-', 0x2d);
            }
        }
        let k = choose|i: int|
            0 <= i < t.len() && {
                let u = (#[trigger] t[i]) as u32;
                (0x41 <= u <= 0x5a) || (0x61 <= u <= 0x7a)
            };
        assert(is_ascii_alphabetic(t[k]));
    }
}

/// A job starts with the word-ness of its trimmed text.
pub proof fn started_job_knows_its_words(selected: Seq<char>)
    ensures
        single_english_word(trim(selected)) == single_english_word(selected),
{
    crate::text::lemma_trim_twice(selected);
}

/// The details that the log records when a translation starts: the length
/// of the text and whether it is a word, never the text itself.
pub open spec fn started_details_text(text_chars: u64, is_word: bool) -> Seq<char> {
    "text_chars="@ + decimal(text_chars as nat) + " is_word="@ + crate::settings::bool_text(is_word)
}

/// Formats the log details of a starting translation.
pub fn translation_started_details(text_chars: u64, is_word: bool) -> (r: String)
    ensures
        r@ == started_details_text(text_chars, is_word),
{
    let mut m = chars_of("text_chars=");
    let digits = decimal_chars(text_chars);
    append_chars(&mut m, &digits);
    append_str(&mut m, " is_word=");
    append_str(&mut m, if is_word { "true" } else { "false" });
    string_of(m.as_slice())
}

/// The log of a starting translation tells nothing of the text but its
/// length and whether it is a word: two texts alike in both are logged
/// alike.
pub proof fn started_details_hide_text(a: Seq<char>, b: Seq<char>)
    requires
        a.len() == b.len(),
        a.len() <= u64::MAX,
        single_english_word(a) == single_english_word(b),
    ensures
        started_details_text(a.len() as u64, single_english_word(a)) == started_details_text(
            b.len() as u64,
            single_english_word(b),
        ),
{
}

/// Whether a card's error is the request to set an API key.
pub fn is_missing_key_message(message: &str) -> (b: bool)
    ensures
        b == (message@ == missing_key_text()),
{
    crate::text::str_equal(message, "请先点击菜单栏图标，在「设置…」里填写 API Key。")
}

/// What a press of the hotkey leads to once the selection has been read.
pub enum SelectionOutcome {
    /// Nothing was selected: show this card.
    ShowError(FloatUpdate),
    /// Translate this selection.
    Translate(String),
}

/// The message shown when the hotkey found no selected text.
pub open spec fn empty_selection_text(platform: Platform) -> Seq<char> {
    match platform {
        Platform::MacOs => "请先选中可复制的文本，再按 ⌥T。若已选中，请在系统设置中允许 WordSnap 使用辅助功能。"@,
        Platform::Other => "请先选中可复制的文本，再按 Alt+T。"@,
    }
}

/// Decides what the text read from the selection leads to: a blank
/// selection shows an error card, anything else is translated.
pub fn selection_outcome(selected: String, platform: Platform) -> (r: SelectionOutcome)
    ensures
        match r {
            SelectionOutcome::ShowError(u) => trim(selected@).len() == 0 && u@ == (FloatUpdateView {
                payload: error_card("未读取到文本"@, false, empty_selection_text(platform)),
                width: 300,
                height: 150,
            }),
            SelectionOutcome::Translate(t) => trim(selected@).len() > 0 && t@ == selected@,
        },
{
    let c = chars_of(selected.as_str());
    if trim_chars(&c).len() == 0 {
        let message = match platform {
            Platform::MacOs =>
                "请先选中可复制的文本，再按 ⌥T。若已选中，请在系统设置中允许 WordSnap 使用辅助功能。",
            Platform::Other => "请先选中可复制的文本，再按 Alt+T。",
        };
        SelectionOutcome::ShowError(error_float_update("未读取到文本", message))
    } else {
        SelectionOutcome::Translate(selected)
    }
}

/// The text to translate again: the text of the current card, trimmed; an
/// error where nothing is left.
pub fn retry_text(original: &str) -> (r: Result<String, String>)
    ensures
        match r {
            Ok(t) => trim(original@).len() > 0 && t@ == trim(original@),
            Err(m) => trim(original@).len() == 0 && m@ == "没有可重试的文本。"@,
        },
{
    let c = chars_of(original);
    let t = trim_chars(&c);
    if t.len() == 0 {
        Err(String::from_str("没有可重试的文本。"))
    } else {
        Ok(string_of(t.as_slice()))
    }
}

/// The key under which a word is removed from the word list: trimmed and
/// lower-cased; an error exactly where nothing is left once trimmed.
pub fn removal_key(word: &str) -> (r: Result<String, String>)
    ensures
        r is Err <==> trim(word@).len() == 0,
        match r {
            Ok(k) => lowercase(trim(word@)).len() > 0 && k@ == lowercase(trim(word@)),
            Err(m) => lowercase(trim(word@)).len() == 0 && m@ == "单词不能为空。"@,
        },
{
    let c = chars_of(word);
    let t = trim_chars(&c);
    let trimmed = string_of(t.as_slice());
    let key = to_lowercase(trimmed.as_str());
    check_removal_key(key)
}

/// Rejects an empty removal key.
pub fn check_removal_key(key: String) -> (r: Result<String, String>)
    ensures
        match r {
            Ok(k) => key@.len() > 0 && k@ == key@,
            Err(m) => key@.len() == 0 && m@ == "单词不能为空。"@,
        },
{
    if key.as_str().unicode_len() == 0 {
        Err(String::from_str("单词不能为空。"))
    } else {
        Ok(key)
    }
}

} // verus!
