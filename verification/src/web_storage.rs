//! Small persisted flags in the browser's `localStorage`, which survive page
//! reloads (there is no settings file on the web), and a best-effort hint
//! that the page runs on a phone or tablet.
//!
//! Reading and writing the browser is left to the caller: these functions
//! take the browser's answer as an argument and say exactly what becomes of
//! each answer.

use vstd::prelude::*;
use crate::text::{chars_of, contains_chars, has_infix};

verus! {

/// Key under which the dismissal of the first-run welcome popup is kept.
pub const WELCOME_SEEN_KEY: &'static str = "paintfe_welcome_seen_v1";

/// The value stored under [`WELCOME_SEEN_KEY`] once the popup is dismissed.
pub const WELCOME_SEEN_VALUE: &'static str = "1";

/// Key under which the serialized settings are kept.
pub const SETTINGS_KEY: &'static str = "paintfe_settings_v1";

/// What `str::to_lowercase` makes of a string: its Unicode lowercase
/// mapping, which depends on the characters alone.
pub uninterp spec fn lowercase(s: Seq<char>) -> Seq<char>;

/// Wraps `str::to_lowercase`; its result is named [`lowercase`].
#[verifier::external_body]
fn to_lowercase(s: &str) -> (r: String)
    ensures
        r@ == lowercase(s@),
{
    s.to_lowercase()
}

/// What a read yields from the browser's answer: the stored value, or
/// nothing when there is no storage, no such key, or the read failed.
pub fn stored_value(lookup: Option<Result<Option<String>, ()>>) -> (r: Option<String>)
    ensures
        r == match lookup {
            Some(Ok(value)) => value,
            _ => None,
        },
{
    match lookup {
        Some(Ok(value)) => value,
        _ => None,
    }
}

/// Has this browser already dismissed the first-run welcome popup? The
/// argument is the browser's answer to a read of [`WELCOME_SEEN_KEY`]:
/// `None` without storage, else the read's outcome.
pub fn has_seen_welcome(lookup: Option<Result<Option<String>, ()>>) -> (r: bool)
    ensures
        r == (lookup matches Some(Ok(Some(_)))),
{
    stored_value(lookup).is_some()
}

/// The settings this browser has kept, from its answer to a read of
/// [`SETTINGS_KEY`]: `None` without storage, else the read's outcome.
pub fn load_settings(lookup: Option<Result<Option<String>, ()>>) -> (r: Option<String>)
    ensures
        r == match lookup {
            Some(Ok(value)) => value,
            _ => None,
        },
{
    stored_value(lookup)
}

/// The error when the browser grants no storage.
pub open spec fn storage_unavailable_message() -> Seq<char> {
    "browser storage is unavailable"@
}

/// The error when the browser refuses to store the settings.
pub open spec fn storage_rejected_message() -> Seq<char> {
    "browser storage rejected the settings update"@
}

/// The outcome of storing the settings under [`SETTINGS_KEY`], from the
/// browser's answer to the write: `None` when there is no storage, else the
/// write's outcome.
pub fn save_settings(write: Option<Result<(), ()>>) -> (r: Result<(), String>)
    ensures
        r is Ok <==> write matches Some(Ok(_)),
        write is None ==> (r matches Err(e) && e@ == storage_unavailable_message()),
        write matches Some(Err(_)) ==> (r matches Err(e) && e@
            == storage_rejected_message()),
{
    match write {
        None => Err("browser storage is unavailable".to_owned()),
        Some(Ok(())) => Ok(()),
        Some(Err(())) => Err("browser storage rejected the settings update".to_owned()),
    }
}

/// A lowercased user-agent string names a phone or tablet.
pub open spec fn names_mobile_device(lowered: Seq<char>) -> bool {
    ||| has_infix(lowered, "mobi"@)
    ||| has_infix(lowered, "android"@)
    ||| has_infix(lowered, "iphone"@)
    ||| has_infix(lowered, "ipad"@)
    ||| has_infix(lowered, "ipod"@)
}

/// Whether an already lowercased user-agent string names a phone or tablet.
pub fn mentions_mobile_device(lowered: &str) -> (r: bool)
    ensures
        r == names_mobile_device(lowered@),
        r <==> (has_infix(lowered@, "mobi"@) || has_infix(lowered@, "android"@) || has_infix(
            lowered@,
            "iphone"@,
        ) || has_infix(lowered@, "ipad"@) || has_infix(lowered@, "ipod"@)),
{
    let hay = chars_of(lowered);
    contains_chars(&hay, &chars_of("mobi")) || contains_chars(&hay, &chars_of("android"))
        || contains_chars(&hay, &chars_of("iphone")) || contains_chars(&hay, &chars_of("ipad"))
        || contains_chars(&hay, &chars_of("ipod"))
}

/// Whether a user-agent string names a phone or tablet, in any letter case.
pub fn user_agent_is_mobile(user_agent: &str) -> (r: bool)
    ensures
        r == names_mobile_device(lowercase(user_agent@)),
{
    let lowered = to_lowercase(user_agent);
    mentions_mobile_device(lowered.as_str())
}

/// Best-effort phone/tablet detection from the browser's user-agent string.
/// It only decides whether to show a heads-up that the web build is meant
/// for desktops; nothing is blocked on it. Without a user agent (no window,
/// or an unreadable one) the answer is `false`.
pub fn is_mobile_device(user_agent: Option<&str>) -> (r: bool)
    ensures
        r == match user_agent {
            None => false,
            Some(ua) => names_mobile_device(lowercase(ua@)),
        },
{
    match user_agent {
        None => false,
        Some(ua) => user_agent_is_mobile(ua),
    }
}

/// Law: a lowercased user agent names a phone or tablet exactly when one of
/// the markers "mobi", "android", "iphone", "ipad" or "ipod" occurs in it; one
/// that holds none of them is not mobile, and one that holds any is.
pub proof fn lemma_mobile_exactly_on_markers(lowered: Seq<char>)
    ensures
        !has_infix(lowered, "mobi"@) && !has_infix(lowered, "android"@) && !has_infix(
            lowered,
            "iphone"@,
        ) && !has_infix(lowered, "ipad"@) && !has_infix(lowered, "ipod"@) ==> !names_mobile_device(
            lowered,
        ),
        has_infix(lowered, "mobi"@) ==> names_mobile_device(lowered),
        has_infix(lowered, "android"@) ==> names_mobile_device(lowered),
        has_infix(lowered, "iphone"@) ==> names_mobile_device(lowered),
        has_infix(lowered, "ipad"@) ==> names_mobile_device(lowered),
        has_infix(lowered, "ipod"@) ==> names_mobile_device(lowered),
{
}

} // verus!
