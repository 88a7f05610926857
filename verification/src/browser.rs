//! The closed enumeration of browser choices and its two-way mapping to the
//! small integer codes the native interface uses.

use vstd::prelude::*;

verus! {

/// A browser a window can be asked to open in: a "no preference" marker, an
/// "any browser" wildcard, each named browser, and a catch-all for other
/// Chromium-based browsers.
#[derive(Clone, Copy, Debug, PartialEq, Eq, Structural)]
pub enum Browser {
    NoBrowser,
    AnyBrowser,
    Chrome,
    Firefox,
    Edge,
    Safari,
    Chromium,
    Opera,
    Brave,
    Vivaldi,
    Epic,
    Yandex,
    ChromiumBased,
}

/// The integer code the native interface assigns to each browser variant.
pub open spec fn browser_code(b: Browser) -> i32 {
    match b {
        Browser::NoBrowser => 0,
        Browser::AnyBrowser => 1,
        Browser::Chrome => 2,
        Browser::Firefox => 3,
        Browser::Edge => 4,
        Browser::Safari => 5,
        Browser::Chromium => 6,
        Browser::Opera => 7,
        Browser::Brave => 8,
        Browser::Vivaldi => 9,
        Browser::Epic => 10,
        Browser::Yandex => 11,
        Browser::ChromiumBased => 12,
    }
}

/// The browser variant named by an integer code of the native enumeration.
/// Only codes 0 through 12 name a variant; the mapping is queried nowhere
/// outside that range.
pub open spec fn browser_of_code(id: i32) -> Browser {
    if id == 0 {
        Browser::NoBrowser
    } else if id == 1 {
        Browser::AnyBrowser
    } else if id == 2 {
        Browser::Chrome
    } else if id == 3 {
        Browser::Firefox
    } else if id == 4 {
        Browser::Edge
    } else if id == 5 {
        Browser::Safari
    } else if id == 6 {
        Browser::Chromium
    } else if id == 7 {
        Browser::Opera
    } else if id == 8 {
        Browser::Brave
    } else if id == 9 {
        Browser::Vivaldi
    } else if id == 10 {
        Browser::Epic
    } else if id == 11 {
        Browser::Yandex
    } else {
        Browser::ChromiumBased
    }
}

impl Browser {
    /// The integer code of this variant. Total and infallible: every variant
    /// has exactly one code.
    pub fn to_id(&self) -> (id: i32)
        ensures
            id == browser_code(*self),
            0 <= id <= 12,
    {
        match self {
            Browser::NoBrowser => 0,
            Browser::AnyBrowser => 1,
            Browser::Chrome => 2,
            Browser::Firefox => 3,
            Browser::Edge => 4,
            Browser::Safari => 5,
            Browser::Chromium => 6,
            Browser::Opera => 7,
            Browser::Brave => 8,
            Browser::Vivaldi => 9,
            Browser::Epic => 10,
            Browser::Yandex => 11,
            Browser::ChromiumBased => 12,
        }
    }

    /// The variant of an integer code. A code outside the enumeration would
    /// mean this mapping and the code's producer have drifted apart — a
    /// programming error, not an input to recover from — so the precondition
    /// rules such codes out and every call site must show its code is known.
    pub fn from_id(id: i32) -> (b: Browser)
        requires
            0 <= id <= 12,
        ensures
            b == browser_of_code(id),
            browser_code(b) == id,
    {
        if id == 0 {
            Browser::NoBrowser
        } else if id == 1 {
            Browser::AnyBrowser
        } else if id == 2 {
            Browser::Chrome
        } else if id == 3 {
            Browser::Firefox
        } else if id == 4 {
            Browser::Edge
        } else if id == 5 {
            Browser::Safari
        } else if id == 6 {
            Browser::Chromium
        } else if id == 7 {
            Browser::Opera
        } else if id == 8 {
            Browser::Brave
        } else if id == 9 {
            Browser::Vivaldi
        } else if id == 10 {
            Browser::Epic
        } else if id == 11 {
            Browser::Yandex
        } else {
            Browser::ChromiumBased
        }
    }
}

/// Round trip, one direction of the bijection: converting any browser variant
/// to its native code and back yields the original variant.
pub proof fn lemma_browser_code_round_trip(b: Browser)
    ensures
        browser_of_code(browser_code(b)) == b,
{
}

/// Round trip, the other direction of the bijection: converting any code of
/// the native enumeration to a variant and back yields the original code.
pub proof fn lemma_code_browser_round_trip(id: i32)
    requires
        0 <= id <= 12,
    ensures
        browser_code(browser_of_code(id)) == id,
{
}

} // verus!
