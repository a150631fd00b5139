//! The app's fixed names, and the pool of synthetic global hotkeys, read from
//! its JSON description.
use crate::input::key::{parse_key_name, Key, KeyCombination, KeyCombinationModifiers, KeyParseError};
use crate::text::str_eq;
use vstd::prelude::*;

verus! {

pub const SETTINGS_MENU_ID: &'static str = "settings";

pub const QUIT_MENU_ID: &'static str = "quit";

pub const INDICATOR_WINDOW_LABEL: &'static str = "indicator";

/// A JSON value (numbers kept as written). An object's members are in the
/// order written; a later member of the same name replaces an earlier one.
#[derive(Debug)]
pub enum Json {
    String(String),
    Number(String),
    Boolean(bool),
    Object(Vec<(String, Json)>),
    Array(Vec<Json>),
    Null,
}

/// The member of an object with the given name (the last one of that name).
pub open spec fn member(members: Seq<(String, Json)>, name: Seq<char>) -> Option<Json>
    decreases members.len(),
{
    if members.len() == 0 {
        None
    } else if members.last().0@ == name {
        Some(members.last().1)
    } else {
        member(members.drop_last(), name)
    }
}

/// The string member of that name, if the member is a string.
pub open spec fn member_string(members: Seq<(String, Json)>, name: Seq<char>) -> Option<Seq<char>> {
    match member(members, name) {
        Some(Json::String(s)) => Some(s@),
        _ => None,
    }
}

/// The number member of that name (as written), if the member is a number.
pub open spec fn member_number(members: Seq<(String, Json)>, name: Seq<char>) -> Option<Seq<char>> {
    match member(members, name) {
        Some(Json::Number(s)) => Some(s@),
        _ => None,
    }
}

/// The object member of that name, if the member is an object.
pub open spec fn member_object(members: Seq<(String, Json)>, name: Seq<char>) -> Option<
    Seq<(String, Json)>,
> {
    match member(members, name) {
        Some(Json::Object(m)) => Some(m@),
        _ => None,
    }
}

fn find_member<'a>(members: &'a Vec<(String, Json)>, name: &str) -> (r: Option<&'a Json>)
    ensures
        match r {
            Some(v) => member(members@, name@) == Some(*v),
            None => member(members@, name@) is None,
        },
{
    let mut i: usize = members.len();
    assert(members@.take(i as int) =~= members@);
    while i > 0
        invariant
            i <= members@.len(),
            member(members@, name@) == member(members@.take(i as int), name@),
        decreases i,
    {
        let ghost t = members@.take(i as int);
        assert(t.drop_last() =~= members@.take(i as int - 1));
        assert(t.last() == members@[i as int - 1]);
        if str_eq(members[i - 1].0.as_str(), name) {
            return Some(&members[i - 1].1);
        }
        i = i - 1;
    }
    None
}

/// Why the hotkey pool could not be read.
#[derive(Debug, Clone)]
pub enum HotkeyPoolError {
    /// The document is not an array.
    NotAnArray,
    /// The item at this position is not an object.
    ItemNotObject(usize),
    /// The item at this position has no string `key`.
    MissingKey(usize),
    /// The item at this position has no object `mod`.
    MissingModifiers(usize),
    /// The item at this position has no number `mod.<flag>`.
    MissingFlag(usize, String),
    /// The item's key is no key.
    Key(usize, KeyParseError),
    /// The text is no JSON with comments.
    InvalidDocument,
}

/// What one item of the pool gives.
pub enum PoolItemView {
    /// The key name and the flags meta, ctrl, alt, shift.
    Combination(Seq<char>, bool, bool, bool, bool),
    NotObject,
    MissingKey,
    MissingModifiers,
    MissingFlag(Seq<char>),
    BadKey,
}

/// Whether a modifier flag, as written, means held.
pub open spec fn flag_held(v: Seq<char>) -> bool {
    v == "1"@
}

/// What an item of the pool gives: an object with a string `key` that names a
/// key, and an object `mod` with the numbers `m`, `c`, `a`, `s` (read in that
/// order); a flag is held when written `1`.
pub open spec fn pool_item(item: Json) -> PoolItemView {
    match item {
        Json::Object(members) => match member_string(members@, "key"@) {
            None => PoolItemView::MissingKey,
            Some(key) => match member_object(members@, "mod"@) {
                None => PoolItemView::MissingModifiers,
                Some(m) => if member_number(m, "m"@) is None {
                    PoolItemView::MissingFlag("m"@)
                } else if member_number(m, "c"@) is None {
                    PoolItemView::MissingFlag("c"@)
                } else if member_number(m, "a"@) is None {
                    PoolItemView::MissingFlag("a"@)
                } else if member_number(m, "s"@) is None {
                    PoolItemView::MissingFlag("s"@)
                } else {
                    match parse_key_name(key) {
                        None => PoolItemView::BadKey,
                        Some(k) => PoolItemView::Combination(
                            k,
                            flag_held(member_number(m, "m"@).unwrap()),
                            flag_held(member_number(m, "c"@).unwrap()),
                            flag_held(member_number(m, "a"@).unwrap()),
                            flag_held(member_number(m, "s"@).unwrap()),
                        ),
                    }
                },
            },
        },
        _ => PoolItemView::NotObject,
    }
}

pub open spec fn combination_matches(c: KeyCombination, v: PoolItemView) -> bool {
    v == PoolItemView::Combination(c.key@, c.modifiers.meta, c.modifiers.ctrl, c.modifiers.alt, c.modifiers.shift)
}

/// Whether an error is the one that an item gives.
pub open spec fn error_matches(e: HotkeyPoolError, i: int, v: PoolItemView) -> bool {
    match v {
        PoolItemView::NotObject => e matches HotkeyPoolError::ItemNotObject(j) && j == i,
        PoolItemView::MissingKey => e matches HotkeyPoolError::MissingKey(j) && j == i,
        PoolItemView::MissingModifiers => e matches HotkeyPoolError::MissingModifiers(j) && j == i,
        PoolItemView::MissingFlag(f) => e matches HotkeyPoolError::MissingFlag(j, g) && j == i && g@ == f,
        PoolItemView::BadKey => e matches HotkeyPoolError::Key(j, _) && j == i,
        PoolItemView::Combination(..) => false,
    }
}

fn flag(m: &Vec<(String, Json)>, name: &str) -> (r: Option<bool>)
    ensures
        match r {
            Some(b) => member_number(m@, name@) matches Some(v) && b == flag_held(v),
            None => member_number(m@, name@) is None,
        },
{
    match find_member(m, name) {
        Some(Json::Number(v)) => Some(str_eq(v.as_str(), "1")),
        _ => None,
    }
}

fn read_pool_item(i: usize, item: &Json) -> (r: Result<KeyCombination, HotkeyPoolError>)
    ensures
        match r {
            Ok(c) => combination_matches(c, pool_item(*item)),
            Err(e) => error_matches(e, i as int, pool_item(*item)),
        },
{
    let members = match item {
        Json::Object(members) => members,
        _ => {
            return Err(HotkeyPoolError::ItemNotObject(i));
        },
    };
    let key = match find_member(members, "key") {
        Some(Json::String(k)) => k,
        _ => {
            return Err(HotkeyPoolError::MissingKey(i));
        },
    };
    let m = match find_member(members, "mod") {
        Some(Json::Object(m)) => m,
        _ => {
            return Err(HotkeyPoolError::MissingModifiers(i));
        },
    };
    let meta = match flag(m, "m") {
        Some(b) => b,
        None => {
            return Err(HotkeyPoolError::MissingFlag(i, crate::text::owned("m")));
        },
    };
    let ctrl = match flag(m, "c") {
        Some(b) => b,
        None => {
            return Err(HotkeyPoolError::MissingFlag(i, crate::text::owned("c")));
        },
    };
    let alt = match flag(m, "a") {
        Some(b) => b,
        None => {
            return Err(HotkeyPoolError::MissingFlag(i, crate::text::owned("a")));
        },
    };
    let shift = match flag(m, "s") {
        Some(b) => b,
        None => {
            return Err(HotkeyPoolError::MissingFlag(i, crate::text::owned("s")));
        },
    };
    match Key::parse(key.as_str()) {
        Ok(k) => Ok(KeyCombination { key: k, modifiers: KeyCombinationModifiers { alt, ctrl, meta, shift } }),
        Err(e) => Err(HotkeyPoolError::Key(i, e)),
    }
}

/// What reading the pool from a parsed document gives: for an array, each
/// item's combination (see [`pool_item`]), or the error of the first item that
/// gives none; for anything else, [`HotkeyPoolError::NotAnArray`].
pub open spec fn pool_outcome(
    parsed: Option<Json>,
    r: Result<Vec<KeyCombination>, HotkeyPoolError>,
) -> bool {
    match parsed {
        Some(Json::Array(items)) => match r {
            Ok(v) => v@.len() == items@.len() && forall|i: int|
                0 <= i < items@.len() ==> combination_matches(#[trigger] v@[i], pool_item(items@[i])),
            Err(e) => exists|i: int|
                0 <= i < items@.len() && error_matches(e, i, pool_item(#[trigger] items@[i]))
                    && forall|j: int| 0 <= j < i ==> pool_item(#[trigger] items@[j]) is Combination,
        },
        _ => r matches Err(HotkeyPoolError::NotAnArray),
    }
}

/// Reads the hotkey pool from its JSON document (`None` when the document
/// is empty): an array of items (see [`pool_item`]). The first item that gives
/// no combination gives the error.
pub fn load_hotkeys(parsed: &Option<Json>) -> (r: Result<Vec<KeyCombination>, HotkeyPoolError>)
    ensures
        pool_outcome(*parsed, r),
{
    let items = match parsed {
        Some(Json::Array(items)) => items,
        _ => {
            return Err(HotkeyPoolError::NotAnArray);
        },
    };
    let n = items.len();
    let mut result: Vec<KeyCombination> = Vec::new();
    let mut i: usize = 0;
    while i < n
        invariant
            n == items@.len(),
            match parsed {
                Some(Json::Array(v)) => v@ == items@,
                _ => false,
            },
            i <= n,
            result@.len() == i,
            forall|j: int| 0 <= j < i ==> combination_matches(#[trigger] result@[j], pool_item(items@[j])),
        decreases n - i,
    {
        match read_pool_item(i, &items[i]) {
            Ok(c) => {
                result.push(c);
            },
            Err(e) => {
                assert forall|j: int| 0 <= j < i implies pool_item(#[trigger] items@[j]) is Combination by {
                    assert(combination_matches(result@[j], pool_item(items@[j])));
                }
                assert(error_matches(e, i as int, pool_item(items@[i as int])));
                return Err(e);
            },
        }
        i = i + 1;
    }
    Ok(result)
}

/// What `jsonc_parser::parse_to_value` makes of a text with the default
/// options: `None` when the text is no JSON with comments, else the document
/// (`None` inside when the text is empty or white space).
pub uninterp spec fn jsonc_document(text: Seq<char>) -> Option<Option<Json>>;

/// Parses a text of JSON with comments.
///
/// Trusted: `jsonc_parser::parse_to_value` with default options gives the
/// same document for the same text; the document is taken over one value for
/// one value (see [`value_from_jsonc`]), and a parse error becomes `None`.
#[verifier::external_body]
fn parse_jsonc(text: &str) -> (r: Option<Option<Json>>)
    ensures
        r == jsonc_document(text@),
{
    match jsonc_parser::parse_to_value(text, &jsonc_parser::ParseOptions::default()) {
        Ok(document) => Some(document.map(value_from_jsonc)),
        Err(_) => None,
    }
}

/// A value as `jsonc_parser` parses it.
#[verifier::external_type_specification]
#[verifier::external_body]
pub struct ExJsoncValue<'a>(jsonc_parser::JsonValue<'a>);

/// The conversion of a parsed value, part of [`parse_jsonc`]: each value of
/// `jsonc_parser` becomes the value of the same kind, an object's members in
/// the order of its map (with the `preserve_order` feature, the order of the
/// document; a repeated name keeps the place of its first member and the
/// value of its last).
#[verifier::external_body]
fn value_from_jsonc(v: jsonc_parser::JsonValue<'_>) -> Json {
    match v {
        jsonc_parser::JsonValue::String(s) => Json::String(s.into_owned()),
        jsonc_parser::JsonValue::Number(n) => Json::Number(n.to_string()),
        jsonc_parser::JsonValue::Boolean(b) => Json::Boolean(b),
        jsonc_parser::JsonValue::Object(o) => Json::Object(
            o.into_iter().map(|(k, x)| (k.into_owned(), value_from_jsonc(x))).collect(),
        ),
        jsonc_parser::JsonValue::Array(a) => Json::Array(a.into_iter().map(value_from_jsonc).collect()),
        jsonc_parser::JsonValue::Null => Json::Null,
    }
}

/// Reads the hotkey pool from the text of its document, JSON with comments:
/// a text that does not parse gives [`HotkeyPoolError::InvalidDocument`];
/// else as [`load_hotkeys`] on the document.
pub fn load_hotkeys_from_text(data: &str) -> (r: Result<Vec<KeyCombination>, HotkeyPoolError>)
    ensures
        match jsonc_document(data@) {
            None => r matches Err(HotkeyPoolError::InvalidDocument),
            Some(document) => pool_outcome(document, r),
        },
{
    match parse_jsonc(data) {
        None => Err(HotkeyPoolError::InvalidDocument),
        Some(document) => load_hotkeys(&document),
    }
}

} // verus!
