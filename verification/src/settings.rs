//! Application settings: which activity to follow and how to report it.
//!
//! Every field has a default, and a missing field takes it, so that a file
//! written by an older version still loads.
use vstd::prelude::*;
use crate::json::{json_get, parse_json, parsed_json, Json};

verus! {

/// Listening and notification settings.
#[derive(Clone, Copy, Debug)]
pub struct Settings {
    /// Follow only the spaces the account created (`space.userUuid` is the account's uuid).
    pub only_my_spaces: bool,
    /// Follow only the turns the account started (`turn.userUuid` is the account's uuid).
    pub only_my_turns: bool,
    /// Push a system notification when a turn is finalized.
    pub notify_finalized: bool,
    /// Show the number of unread finished turns on the tray icon.
    pub tray_badge: bool,
    /// Show an in-app toast when a turn is finalized.
    pub in_app_toast: bool,
}

/// The default settings: follow everything, report every way.
pub open spec fn default_settings() -> Settings {
    Settings {
        only_my_spaces: false,
        only_my_turns: false,
        notify_finalized: true,
        tray_badge: true,
        in_app_toast: true,
    }
}

/// The default of the fields that default to `true`.
pub fn default_true() -> (r: bool)
    ensures
        r == true,
{
    true
}

impl Default for Settings {
    fn default() -> (r: Self)
        ensures
            r == default_settings(),
    {
        Settings {
            only_my_spaces: false,
            only_my_turns: false,
            notify_finalized: default_true(),
            tray_badge: default_true(),
            in_app_toast: default_true(),
        }
    }
}

/// A field of a settings object: its default when absent, its value when a
/// boolean, `None` (the object is rejected) otherwise.
pub open spec fn member_or(obj: Json, key: Seq<char>, default: bool) -> Option<bool> {
    match json_get(obj, key) {
        None => Some(default),
        Some(Json::Bool(b)) => Some(b),
        Some(_) => None,
    }
}

/// A field of a settings array (fields in declaration order): its default past
/// the end, its value when a boolean, `None` otherwise.
pub open spec fn item_or(items: Seq<Json>, i: int, default: bool) -> Option<bool> {
    if i < items.len() {
        match items[i] {
            Json::Bool(b) => Some(b),
            _ => None,
        }
    } else {
        Some(default)
    }
}

/// Settings from five decoded fields; the defaults as a whole if any failed.
pub open spec fn settings_from(
    a: Option<bool>,
    b: Option<bool>,
    c: Option<bool>,
    d: Option<bool>,
    e: Option<bool>,
) -> Settings {
    if a is Some && b is Some && c is Some && d is Some && e is Some {
        Settings {
            only_my_spaces: a->0,
            only_my_turns: b->0,
            notify_finalized: c->0,
            tray_badge: d->0,
            in_app_toast: e->0,
        }
    } else {
        default_settings()
    }
}

/// The settings a JSON document holds. An object gives each field by name, an
/// array (as serde reads a struct from a sequence) by position, at most five;
/// a missing field takes its default; anything else, or a field that is not
/// a boolean, gives the default settings.
pub open spec fn settings_of_json(j: Option<Json>) -> Settings {
    match j {
        Some(v) => match v {
            Json::Object(_) => settings_from(
                member_or(v, "only_my_spaces"@, false),
                member_or(v, "only_my_turns"@, false),
                member_or(v, "notify_finalized"@, true),
                member_or(v, "tray_badge"@, true),
                member_or(v, "in_app_toast"@, true),
            ),
            Json::Array(items) => if items@.len() <= 5 {
                settings_from(
                    item_or(items@, 0, false),
                    item_or(items@, 1, false),
                    item_or(items@, 2, true),
                    item_or(items@, 3, true),
                    item_or(items@, 4, true),
                )
            } else {
                default_settings()
            },
            _ => default_settings(),
        },
        None => default_settings(),
    }
}

fn member_bool(obj: &Json, key: &str, default: bool) -> (r: Option<bool>)
    ensures
        r == member_or(*obj, key@, default),
{
    match obj.get(key) {
        None => Some(default),
        Some(Json::Bool(b)) => Some(*b),
        Some(_) => None,
    }
}

fn item_bool(items: &Vec<Json>, i: usize, default: bool) -> (r: Option<bool>)
    ensures
        r == item_or(items@, i as int, default),
{
    if i < items.len() {
        match &items[i] {
            Json::Bool(b) => Some(*b),
            _ => None,
        }
    } else {
        Some(default)
    }
}

fn settings_of_fields(
    a: Option<bool>,
    b: Option<bool>,
    c: Option<bool>,
    d: Option<bool>,
    e: Option<bool>,
) -> (r: Settings)
    ensures
        r == settings_from(a, b, c, d, e),
{
    match (a, b, c, d, e) {
        (Some(a), Some(b), Some(c), Some(d), Some(e)) => Settings {
            only_my_spaces: a,
            only_my_turns: b,
            notify_finalized: c,
            tray_badge: d,
            in_app_toast: e,
        },
        _ => Settings::default(),
    }
}

/// The settings a JSON document holds (see [`settings_of_json`]).
pub fn settings_from_json(j: &Option<Json>) -> (r: Settings)
    ensures
        r == settings_of_json(*j),
{
    match j {
        Some(v) => match v {
            Json::Object(_) => settings_of_fields(
                member_bool(v, "only_my_spaces", false),
                member_bool(v, "only_my_turns", false),
                member_bool(v, "notify_finalized", true),
                member_bool(v, "tray_badge", true),
                member_bool(v, "in_app_toast", true),
            ),
            Json::Array(items) => if items.len() <= 5 {
                settings_of_fields(
                    item_bool(items, 0, false),
                    item_bool(items, 1, false),
                    item_bool(items, 2, true),
                    item_bool(items, 3, true),
                    item_bool(items, 4, true),
                )
            } else {
                Settings::default()
            },
            _ => Settings::default(),
        },
        None => Settings::default(),
    }
}

/// Loads settings from the text of the settings file; a text that is not
/// settings gives the defaults.
pub fn settings_from_text(raw: &str) -> (r: Settings)
    ensures
        r == settings_of_json(parsed_json(raw@)),
{
    let j = parse_json(raw);
    settings_from_json(&j)
}

} // verus!
