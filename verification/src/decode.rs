//! Decoding the values that replies carry.
//!
//! A reply is parsed once; the decoders here read a parsed document and are
//! total: a document of another shape than the one asked for yields `None`.

use crate::browser::{Cookie, CookieModel, Timeouts, WindowRect};
use crate::json::{
    is_listing, json_entry, json_fields, json_from_slice, json_map_entries, json_parse, json_tree,
    tree_entry, JsonTree,
};
use vstd::prelude::*;
use vstd::string::*;

verus! {

/// The content of a string.
pub open spec fn text_of(t: JsonTree) -> Option<Seq<char>> {
    match t {
        JsonTree::Text(s) => Some(s),
        _ => None,
    }
}

/// The content of the string under `key`.
pub open spec fn text_entry(t: JsonTree, key: Seq<char>) -> Option<Seq<char>> {
    match tree_entry(t, key) {
        Some(e) => text_of(e),
        None => None,
    }
}

/// The boolean under `key`.
pub open spec fn bool_entry(t: JsonTree, key: Seq<char>) -> Option<bool> {
    match tree_entry(t, key) {
        Some(JsonTree::Bool(b)) => Some(b),
        _ => None,
    }
}

/// The integer under `key`, where it lies between `min` and `max`.
pub open spec fn int_entry(t: JsonTree, key: Seq<char>, min: int, max: int) -> Option<int> {
    match tree_entry(t, key) {
        Some(JsonTree::Integer(n)) => if min <= n <= max {
            Some(n)
        } else {
            None
        },
        _ => None,
    }
}

/// The view of an optional text.
pub open spec fn opt_text(r: Option<String>) -> Option<Seq<char>> {
    match r {
        Some(s) => Some(s@),
        None => None,
    }
}

/// The views of a list of texts.
pub open spec fn texts(list: Seq<String>) -> Seq<Seq<char>> {
    list.map_values(|s: String| s@)
}

/// Parses a reply. The contract names the outcome: it does not say which
/// replies parse.
pub fn parse_reply(resp: &str) -> (r: Option<serde_json::Value>)
    ensures
        match r {
            Some(doc) => json_parse(vstd::utf8::encode_utf8(resp@)) == Some(json_tree(doc)),
            None => json_parse(vstd::utf8::encode_utf8(resp@)) is None,
        },
{
    match json_from_slice(resp.as_bytes()) {
        Ok(doc) => Some(doc),
        Err(_) => None,
    }
}

/// The content of the string under `key`.
pub fn text_entry_in(v: &serde_json::Value, key: &str) -> (r: Option<String>)
    ensures
        opt_text(r) == text_entry(json_tree(*v), key@),
{
    match json_entry(v, key) {
        None => None,
        Some(e) => match e.as_str() {
            Some(s) => Some(String::from_str(s)),
            None => None,
        },
    }
}

/// The boolean under `key`.
pub fn bool_entry_in(v: &serde_json::Value, key: &str) -> (r: Option<bool>)
    ensures
        r == bool_entry(json_tree(*v), key@),
{
    match json_entry(v, key) {
        None => None,
        Some(e) => e.as_bool(),
    }
}

/// The integer under `key`, where it fits in 32 bits without sign.
pub fn u32_entry_in(v: &serde_json::Value, key: &str) -> (r: Option<u32>)
    ensures
        match r {
            Some(n) => int_entry(json_tree(*v), key@, 0, u32::MAX as int) == Some(n as int),
            None => int_entry(json_tree(*v), key@, 0, u32::MAX as int) is None,
        },
{
    match json_entry(v, key) {
        None => None,
        Some(e) => match e.as_u64() {
            Some(n) => if n <= u32::MAX as u64 {
                Some(n as u32)
            } else {
                None
            },
            None => None,
        },
    }
}

/// The integer under `key`, where it fits in 64 bits without sign.
pub fn u64_entry_in(v: &serde_json::Value, key: &str) -> (r: Option<u64>)
    ensures
        match r {
            Some(n) => int_entry(json_tree(*v), key@, 0, u64::MAX as int) == Some(n as int),
            None => int_entry(json_tree(*v), key@, 0, u64::MAX as int) is None,
        },
{
    match json_entry(v, key) {
        None => None,
        Some(e) => e.as_u64(),
    }
}

/// The integer under `key`, where it fits in 32 bits with sign.
pub fn i32_entry_in(v: &serde_json::Value, key: &str) -> (r: Option<i32>)
    ensures
        match r {
            Some(n) => int_entry(json_tree(*v), key@, i32::MIN as int, i32::MAX as int) == Some(
                n as int,
            ),
            None => int_entry(json_tree(*v), key@, i32::MIN as int, i32::MAX as int) is None,
        },
{
    match json_entry(v, key) {
        None => None,
        Some(e) => match e.as_i64() {
            Some(n) => if n >= i32::MIN as i64 && n <= i32::MAX as i64 {
                Some(n as i32)
            } else {
                None
            },
            None => None,
        },
    }
}

/// The session that a reply to a session request announces: the string
/// `sessionId` of the object `value`.
pub open spec fn session_id_of(doc: JsonTree) -> Option<Seq<char>> {
    match tree_entry(doc, "value"@) {
        Some(value) => text_entry(value, "sessionId"@),
        None => None,
    }
}

/// The session that a reply to a session request announces.
pub fn session_id_in(doc: &serde_json::Value) -> (r: Option<String>)
    ensures
        opt_text(r) == session_id_of(json_tree(*doc)),
{
    match json_entry(doc, "value") {
        None => None,
        Some(value) => text_entry_in(value, "sessionId"),
    }
}

/// The content of the `value` entry where it is a string.
pub fn string_value_in(doc: &serde_json::Value) -> (r: Option<String>)
    ensures
        opt_text(r) == text_entry(json_tree(*doc), "value"@),
{
    text_entry_in(doc, "value")
}

/// The `value` entry where it is a boolean.
pub fn bool_value_in(doc: &serde_json::Value) -> (r: Option<bool>)
    ensures
        r == bool_entry(json_tree(*doc), "value"@),
{
    bool_entry_in(doc, "value")
}

/// The items of an array of strings.
pub open spec fn string_list_of(t: JsonTree) -> Option<Seq<Seq<char>>> {
    match t {
        JsonTree::Array(items) => if forall|i: int|
            0 <= i < items.len() ==> (#[trigger] items[i]) is Text {
            Some(items.map_values(|item: JsonTree| item->Text_0))
        } else {
            None
        },
        _ => None,
    }
}

/// The items of an array of strings, such as the handles of the open
/// windows. An array that holds anything else is no such list.
pub fn string_list_in(v: &serde_json::Value) -> (r: Option<Vec<String>>)
    ensures
        match r {
            Some(list) => string_list_of(json_tree(*v)) == Some(texts(list@)),
            None => string_list_of(json_tree(*v)) is None,
        },
{
    match v.as_array() {
        None => None,
        Some(items) => {
            let ghost trees = items@.map_values(|item: serde_json::Value| json_tree(item));
            let mut list: Vec<String> = Vec::new();
            let mut i: usize = 0;
            while i < items.len()
                invariant
                    i <= items.len(),
                    trees == items@.map_values(|item: serde_json::Value| json_tree(item)),
                    json_tree(*v) == JsonTree::Array(trees),
                    list@.len() == i,
                    forall|j: int| 0 <= j < i ==> trees[j] == JsonTree::Text(#[trigger] list@[j]@),
                decreases items.len() - i,
            {
                match items[i].as_str() {
                    None => {
                        assert(!(trees[i as int] is Text));
                        return None;
                    },
                    Some(s) => {
                        assert(trees[i as int] == JsonTree::Text(s@));
                        list.push(String::from_str(s));
                    },
                }
                i += 1;
            }
            proof {
                assert forall|j: int| 0 <= j < trees.len() implies (#[trigger] trees[j]) is Text by {
                    assert(trees[j] == JsonTree::Text(list@[j]@));
                }
                assert(trees.map_values(|item: JsonTree| item->Text_0) =~= texts(list@));
            }
            Some(list)
        },
    }
}

/// The handle and the kind of a window just opened: the strings `handle`
/// and `type` of an object.
pub fn window_pair_in(v: &serde_json::Value) -> (r: Option<(String, String)>)
    ensures
        match r {
            Some((handle, kind)) => text_entry(json_tree(*v), "handle"@) == Some(handle@)
                && text_entry(json_tree(*v), "type"@) == Some(kind@),
            None => text_entry(json_tree(*v), "handle"@) is None || text_entry(
                json_tree(*v),
                "type"@,
            ) is None,
        },
{
    match text_entry_in(v, "handle") {
        None => None,
        Some(handle) => match text_entry_in(v, "type") {
            None => None,
            Some(kind) => Some((handle, kind)),
        },
    }
}

/// The timeouts that an object holds: the integers `implicit`, `pageLoad`
/// and `script`, each within 32 bits.
pub open spec fn timeouts_of(t: JsonTree) -> Option<Timeouts> {
    match (
        int_entry(t, "implicit"@, 0, u32::MAX as int),
        int_entry(t, "pageLoad"@, 0, u32::MAX as int),
        int_entry(t, "script"@, 0, u32::MAX as int),
    ) {
        (Some(implicit), Some(page_load), Some(script)) => Some(
            Timeouts { implicit: implicit as u32, pageLoad: page_load as u32, script: script as u32 },
        ),
        _ => None,
    }
}

/// The timeouts that an object holds.
pub fn timeouts_in(v: &serde_json::Value) -> (r: Option<Timeouts>)
    ensures
        r == timeouts_of(json_tree(*v)),
{
    match u32_entry_in(v, "implicit") {
        None => None,
        Some(implicit) => match u32_entry_in(v, "pageLoad") {
            None => None,
            Some(page_load) => match u32_entry_in(v, "script") {
                None => None,
                Some(script) => Some(Timeouts { implicit, pageLoad: page_load, script }),
            },
        },
    }
}

/// The rectangle that an object holds: the integers `height`, `width`, `x`
/// and `y`, each within 32 bits.
pub open spec fn window_rect_of(t: JsonTree) -> Option<WindowRect> {
    match (
        int_entry(t, "height"@, i32::MIN as int, i32::MAX as int),
        int_entry(t, "width"@, i32::MIN as int, i32::MAX as int),
        int_entry(t, "x"@, i32::MIN as int, i32::MAX as int),
        int_entry(t, "y"@, i32::MIN as int, i32::MAX as int),
    ) {
        (Some(height), Some(width), Some(x), Some(y)) => Some(
            WindowRect { height: height as i32, width: width as i32, x: x as i32, y: y as i32 },
        ),
        _ => None,
    }
}

/// The rectangle that an object holds.
pub fn window_rect_in(v: &serde_json::Value) -> (r: Option<WindowRect>)
    ensures
        r == window_rect_of(json_tree(*v)),
{
    match i32_entry_in(v, "height") {
        None => None,
        Some(height) => match i32_entry_in(v, "width") {
            None => None,
            Some(width) => match i32_entry_in(v, "x") {
                None => None,
                Some(x) => match i32_entry_in(v, "y") {
                    None => None,
                    Some(y) => Some(WindowRect { height, width, x, y }),
                },
            },
        },
    }
}

/// The text under `key`, or no text where there is none.
pub open spec fn text_or_empty(t: JsonTree, key: Seq<char>) -> Seq<char> {
    match text_entry(t, key) {
        Some(s) => s,
        None => Seq::empty(),
    }
}

/// The cookie that an object describes. Name and value are owed; a domain,
/// a path or a same-site policy that is missing is empty, an expiry that is
/// missing is zero, a flag that is missing is off.
pub open spec fn cookie_of(t: JsonTree) -> Option<CookieModel> {
    match (text_entry(t, "name"@), text_entry(t, "value"@)) {
        (Some(name), Some(value)) => Some(
            CookieModel {
                domain: text_or_empty(t, "domain"@),
                expiry: match int_entry(t, "expiry"@, 0, u64::MAX as int) {
                    Some(n) => n as u64,
                    None => 0,
                },
                httpOnly: match bool_entry(t, "httpOnly"@) {
                    Some(b) => b,
                    None => false,
                },
                name,
                path: text_or_empty(t, "path"@),
                secure: match bool_entry(t, "secure"@) {
                    Some(b) => b,
                    None => false,
                },
                value,
                sameSite: text_or_empty(t, "sameSite"@),
            },
        ),
        _ => None,
    }
}

fn text_or_empty_in(v: &serde_json::Value, key: &str) -> (r: String)
    ensures
        r@ == text_or_empty(json_tree(*v), key@),
{
    match text_entry_in(v, key) {
        Some(s) => s,
        None => String::new(),
    }
}

/// The cookie that a document describes, where it names one: a document
/// without a string `name` and a string `value` describes none.
pub fn from_value_to_cookie(val: &serde_json::Value) -> (r: Option<Cookie>)
    ensures
        match r {
            Some(cookie) => cookie_of(json_tree(*val)) == Some(cookie@),
            None => cookie_of(json_tree(*val)) is None,
        },
{
    let name = match text_entry_in(val, "name") {
        Some(s) => s,
        None => {
            return None;
        },
    };
    let value = match text_entry_in(val, "value") {
        Some(s) => s,
        None => {
            return None;
        },
    };
    let domain = text_or_empty_in(val, "domain");
    let expiry: u64 = match u64_entry_in(val, "expiry") {
        Some(exp) => exp,
        None => 0,
    };
    let http_only = match bool_entry_in(val, "httpOnly") {
        Some(http) => http,
        None => false,
    };
    let path = text_or_empty_in(val, "path");
    let secure = match bool_entry_in(val, "secure") {
        Some(sec) => sec,
        None => false,
    };
    let same_site = text_or_empty_in(val, "sameSite");
    Some(
        Cookie {
            name,
            value,
            path,
            expiry,
            secure,
            domain,
            httpOnly: http_only,
            sameSite: same_site,
        },
    )
}

/// The document is an object that names an element: it has a member, and
/// each of its members is a string.
pub open spec fn is_element_object(t: JsonTree) -> bool {
    &&& t is Object
    &&& exists|k: Seq<char>| (#[trigger] t->Object_0.contains_key(k))
    &&& forall|k: Seq<char>| #[trigger] t->Object_0.contains_key(k) ==> t->Object_0[k] is Text
}

/// `key` and `id` are a member of the object and its string.
pub open spec fn is_element_member(t: JsonTree, key: Seq<char>, id: Seq<char>) -> bool {
    &&& t is Object
    &&& t->Object_0.contains_key(key)
    &&& t->Object_0[key] == JsonTree::Text(id)
}

/// The member that names an element: its key, which says what kind of
/// reference this is, and its string, which is the reference. An object has
/// one such member in this protocol; of an object with several, one of
/// them is handed out, and nothing says which.
pub fn element_ids_in(v: &serde_json::Value) -> (r: Option<(String, String)>)
    ensures
        match r {
            Some((key, id)) => is_element_object(json_tree(*v)) && is_element_member(
                json_tree(*v),
                key@,
                id@,
            ),
            None => !is_element_object(json_tree(*v)),
        },
{
    let map = match v.as_object() {
        Some(m) => m,
        None => {
            return None;
        },
    };
    let ghost fields = json_fields(*map);
    let entries = json_map_entries(map);
    if entries.len() == 0 {
        assert forall|k: Seq<char>| !fields.contains_key(k) by {
            if fields.contains_key(k) {
                let at = choose|i: int| 0 <= i < entries@.len() && (#[trigger] entries@[i]).0@ == k;
                assert(0 <= at < entries@.len());
            }
        }
        return None;
    }
    let mut i: usize = 0;
    while i < entries.len()
        invariant
            i <= entries.len(),
            fields == json_fields(*map),
            json_tree(*v) == JsonTree::Object(fields),
            is_listing(entries@, fields),
            forall|j: int| 0 <= j < i ==> json_tree(*(#[trigger] entries@[j]).1) is Text,
        decreases entries.len() - i,
    {
        match entries[i].1.as_str() {
            None => {
                assert(fields.contains_key(entries@[i as int].0@));
                return None;
            },
            Some(_) => {},
        }
        i += 1;
    }
    assert forall|k: Seq<char>| #[trigger] fields.contains_key(k) implies fields[k] is Text by {
        let j = choose|j: int| 0 <= j < entries@.len() && (#[trigger] entries@[j]).0@ == k;
        assert(json_tree(*entries@[j].1) is Text);
    }
    assert(fields.contains_key(entries@[0].0@));
    match entries[0].1.as_str() {
        None => None,
        Some(id) => Some((entries[0].0.clone(), String::from_str(id))),
    }
}

/// The cookies that an array describes, in its order. An array with an item
/// that describes no cookie is no such list.
pub open spec fn cookies_of(t: JsonTree) -> Option<Seq<CookieModel>> {
    match t {
        JsonTree::Array(items) => if forall|i: int|
            0 <= i < items.len() ==> cookie_of(#[trigger] items[i]) is Some {
            Some(items.map_values(|item: JsonTree| cookie_of(item)->Some_0))
        } else {
            None
        },
        _ => None,
    }
}

/// The views of a list of cookies.
pub open spec fn cookie_models(list: Seq<Cookie>) -> Seq<CookieModel> {
    list.map_values(|c: Cookie| c@)
}

/// The cookies that an array describes, in its order.
pub fn cookies_in(v: &serde_json::Value) -> (r: Option<Vec<Cookie>>)
    ensures
        match r {
            Some(list) => cookies_of(json_tree(*v)) == Some(cookie_models(list@)),
            None => cookies_of(json_tree(*v)) is None,
        },
{
    match v.as_array() {
        None => None,
        Some(items) => {
            let ghost trees = items@.map_values(|item: serde_json::Value| json_tree(item));
            let mut list: Vec<Cookie> = Vec::new();
            let mut i: usize = 0;
            while i < items.len()
                invariant
                    i <= items.len(),
                    trees == items@.map_values(|item: serde_json::Value| json_tree(item)),
                    json_tree(*v) == JsonTree::Array(trees),
                    list@.len() == i,
                    forall|j: int|
                        0 <= j < i ==> cookie_of(trees[j]) == Some((#[trigger] list@[j])@),
                decreases items.len() - i,
            {
                match from_value_to_cookie(&items[i]) {
                    None => {
                        assert(cookie_of(trees[i as int]) is None);
                        return None;
                    },
                    Some(cookie) => {
                        assert(cookie_of(trees[i as int]) == Some(cookie@));
                        list.push(cookie);
                    },
                }
                i += 1;
            }
            proof {
                assert forall|j: int| 0 <= j < trees.len() implies cookie_of(
                    #[trigger] trees[j],
                ) is Some by {
                    assert(cookie_of(trees[j]) == Some(list@[j]@));
                }
                assert(trees.map_values(|item: JsonTree| cookie_of(item)->Some_0) =~= cookie_models(
                    list@,
                ));
            }
            Some(list)
        },
    }
}

/// `pair` names the element that the object `t` holds.
pub open spec fn names_element(t: JsonTree, pair: (String, String)) -> bool {
    is_element_object(t) && is_element_member(t, pair.0@, pair.1@)
}

/// `ids` names one element for each item of the array `t`, in its order.
pub open spec fn names_elements(t: JsonTree, ids: Seq<(String, String)>) -> bool {
    &&& t is Array
    &&& ids.len() == t->Array_0.len()
    &&& forall|i: int| 0 <= i < ids.len() ==> names_element(t->Array_0[i], #[trigger] ids[i])
}

/// The document is an array of objects that each name an element.
pub open spec fn is_element_array(t: JsonTree) -> bool {
    &&& t is Array
    &&& forall|i: int| 0 <= i < t->Array_0.len() ==> is_element_object(#[trigger] t->Array_0[i])
}

/// The elements that an array names, in its order, each as
/// [`element_ids_in`] reads it.
pub fn element_ids_list_in(v: &serde_json::Value) -> (r: Option<Vec<(String, String)>>)
    ensures
        match r {
            Some(ids) => names_elements(json_tree(*v), ids@),
            None => !is_element_array(json_tree(*v)),
        },
{
    match v.as_array() {
        None => None,
        Some(items) => {
            let ghost trees = items@.map_values(|item: serde_json::Value| json_tree(item));
            let mut list: Vec<(String, String)> = Vec::new();
            let mut i: usize = 0;
            while i < items.len()
                invariant
                    i <= items.len(),
                    trees == items@.map_values(|item: serde_json::Value| json_tree(item)),
                    json_tree(*v) == JsonTree::Array(trees),
                    list@.len() == i,
                    forall|j: int| 0 <= j < i ==> names_element(trees[j], #[trigger] list@[j]),
                decreases items.len() - i,
            {
                assert(trees[i as int] == json_tree(items@[i as int]));
                match element_ids_in(&items[i]) {
                    None => {
                        assert(!is_element_object(json_tree(*v)->Array_0[i as int]));
                        return None;
                    },
                    Some(ids) => {
                        assert(names_element(trees[i as int], ids));
                        list.push(ids);
                    },
                }
                i += 1;
            }
            assert(json_tree(*v)->Array_0 == trees);
            assert(trees.len() == items@.len());
            Some(list)
        },
    }
}

} // verus!
