//! The floating translation card: what it shows and how large it is.

use crate::text::{str_equal};
use vstd::prelude::*;

verus! {

/// What the floating card shows.
pub struct FloatPayload {
    /// One of `idle`, `loading`, `word`, `sentence`, `error`.
    pub state: String,
    pub original: String,
    pub translation: Option<String>,
    pub is_word: bool,
    pub count: Option<i64>,
    pub error: Option<String>,
}

/// The mathematical content of a [`FloatPayload`].
pub struct FloatPayloadView {
    pub state: Seq<char>,
    pub original: Seq<char>,
    pub translation: Option<Seq<char>>,
    pub is_word: bool,
    pub count: Option<i64>,
    pub error: Option<Seq<char>>,
}

impl View for FloatPayload {
    type V = FloatPayloadView;

    open spec fn view(&self) -> FloatPayloadView {
        FloatPayloadView {
            state: self.state@,
            original: self.original@,
            translation: self.translation.deep_view(),
            is_word: self.is_word,
            count: self.count,
            error: self.error.deep_view(),
        }
    }
}

impl Default for FloatPayload {
    /// The card before any translation: `idle`, with nothing in it.
    fn default() -> (p: Self)
        ensures
            p@ == (FloatPayloadView {
                state: "idle"@,
                original: Seq::empty(),
                translation: None,
                is_word: false,
                count: None,
                error: None,
            }),
    {
        FloatPayload {
            state: String::from_str("idle"),
            original: String::new(),
            translation: None,
            is_word: false,
            count: None,
            error: None,
        }
    }
}

/// A card to show, with the logical size to give its window.
pub struct FloatUpdate {
    pub payload: FloatPayload,
    pub width: u32,
    pub height: u32,
}

/// The mathematical content of a [`FloatUpdate`].
pub struct FloatUpdateView {
    pub payload: FloatPayloadView,
    pub width: u32,
    pub height: u32,
}

impl View for FloatUpdate {
    type V = FloatUpdateView;

    open spec fn view(&self) -> FloatUpdateView {
        FloatUpdateView { payload: self.payload@, width: self.width, height: self.height }
    }
}

/// The card that reports an error about `original`.
pub open spec fn error_card(original: Seq<char>, is_word: bool, error: Seq<char>) -> FloatPayloadView {
    FloatPayloadView {
        state: "error"@,
        original,
        translation: None,
        is_word,
        count: None,
        error: Some(error),
    }
}

/// Whether a card in this state is finished, so that a click elsewhere or a
/// loss of focus hides it.
pub open spec fn dismissible_state(state: Seq<char>) -> bool {
    state == "word"@ || state == "sentence"@ || state == "error"@
}

/// Whether a card in `state` may be hidden by a click elsewhere: only a
/// finished one (`word`, `sentence` or `error`).
pub fn float_is_dismissible(state: &str) -> (b: bool)
    ensures
        b == dismissible_state(state@),
{
    str_equal(state, "word") || str_equal(state, "sentence") || str_equal(state, "error")
}

/// The card that reports an error about `original`, at 300 by 150.
pub fn error_float_update(original: &str, error: &str) -> (u: FloatUpdate)
    ensures
        u@ == (FloatUpdateView {
            payload: error_card(original@, false, error@),
            width: 300,
            height: 150,
        }),
{
    FloatUpdate {
        payload: FloatPayload {
            state: String::from_str("error"),
            original: String::from_str(original),
            translation: None,
            is_word: false,
            count: None,
            error: Some(String::from_str(error)),
        },
        width: 300,
        height: 150,
    }
}

/// `v.clamp(lo, hi)` for `lo <= hi`.
pub open spec fn clamped(v: int, lo: int, hi: int) -> int {
    if v < lo {
        lo
    } else if v > hi {
        hi
    } else {
        v
    }
}

/// The size that the card's window takes when the page asks for
/// `width` by `height`: width within 240..=400, height within 70..=420.
pub fn clamp_float_size(width: u32, height: u32) -> (r: (u32, u32))
    ensures
        r.0 == clamped(width as int, 240, 400),
        r.1 == clamped(height as int, 70, 420),
{
    let w = if width < 240 {
        240
    } else if width > 400 {
        400
    } else {
        width
    };
    let h = if height < 70 {
        70
    } else if height > 420 {
        420
    } else {
        height
    };
    (w, h)
}

} // verus!
