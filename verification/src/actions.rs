//! Sequences of key, mouse and wheel actions.
//!
//! An action is a JSON document. It is written as text, parsed by
//! `serde_json` and kept as parsed; a text that does not parse adds nothing,
//! which shows in the length of the list.
//! When several input sources act together, pauses keep them in step (see
//! <https://www.w3.org/TR/webdriver/#actions>).

use crate::json::{json_compact, json_from_slice, json_parse, json_text, json_tree, JsonTree};
use crate::specialkey::{MouseButton, SpecialKey};
use crate::text::{decimal, push_decimal, push_signed_decimal, signed_decimal, without_last};
use vstd::prelude::*;
use vstd::string::*;

verus! {

/// The actions of all input sources, one document for each source.
#[derive(Debug)]
pub struct Actions {
    pub actions: Vec<serde_json::Value>,
}

/// A sequence of key actions.
#[derive(Debug)]
pub struct ActionsKeys {
    pub actions: Vec<serde_json::Value>,
}

/// A sequence of mouse actions.
#[derive(Debug)]
pub struct ActionsMouse {
    pub actions: Vec<serde_json::Value>,
}

/// A sequence of wheel actions.
#[derive(Debug)]
pub struct ActionsWheel {
    pub actions: Vec<serde_json::Value>,
}

/// The documents that a list of values holds.
pub open spec fn trees(list: Seq<serde_json::Value>) -> Seq<JsonTree> {
    list.map_values(|v: serde_json::Value| json_tree(v))
}

/// The document that a text parses to.
pub open spec fn parsed(text: Seq<char>) -> Option<JsonTree> {
    json_parse(vstd::utf8::encode_utf8(text))
}

/// The list with the document of `text` at its end, where `text` parses;
/// the list as it is where it does not.
pub open spec fn with_parsed(list: Seq<JsonTree>, text: Seq<char>) -> Seq<JsonTree> {
    match parsed(text) {
        Some(t) => list.push(t),
        None => list,
    }
}

/// `Value::Array` wraps a list of documents as one document.
#[verifier::external_body]
fn json_array(items: &Vec<serde_json::Value>) -> (r: serde_json::Value)
    ensures
        json_tree(r) == JsonTree::Array(trees(items@)),
{
    serde_json::Value::Array(items.clone())
}

/// By how much a list grows when `text` is added: by one where it parses,
/// by nothing where it does not.
pub open spec fn growth(text: Seq<char>) -> nat {
    if parsed(text) is Some {
        1
    } else {
        0
    }
}

/// Parses `text` and puts the document at the end of `actions`.
fn push_parsed(actions: &mut Vec<serde_json::Value>, text: &str)
    ensures
        trees(final(actions)@) == with_parsed(trees(old(actions)@), text@),
        final(actions)@.len() == old(actions)@.len() + growth(text@),
{
    match json_from_slice(text.as_bytes()) {
        Ok(val) => {
            actions.push(val);
            assert(trees(actions@) =~= trees(old(actions)@).push(json_tree(val)));
        },
        Err(_) => {},
    }
}

/// The action that presses (`keyDown`) or releases (`keyUp`) a key.
pub open spec fn key_action(kind: Seq<char>, key: Seq<char>) -> Seq<char> {
    "{\"type\":\""@ + kind + "\",\"value\":\""@ + key + "\"}"@
}

/// The action that lets a source pause for `duration` milliseconds.
pub open spec fn pause_action(duration: u32) -> Seq<char> {
    "{\"type\":\"pause\",\"duration\":"@ + decimal(duration as nat) + seq!['}']
}

/// The number that the protocol knows a mouse button by.
pub open spec fn button_number(button: MouseButton) -> u8 {
    match button {
        MouseButton::Left => 0,
        MouseButton::Middle => 1,
        MouseButton::Right => 2,
        MouseButton::X1Back => 3,
        MouseButton::X2Forward => 4,
    }
}

/// The action that presses (`pointerDown`) or releases (`pointerUp`) a
/// mouse button.
pub open spec fn button_action(kind: Seq<char>, button: MouseButton) -> Seq<char> {
    "{\"type\":\""@ + kind + "\",\"button\":"@ + decimal(button_number(button) as nat) + seq!['}']
}

/// The action that moves the mouse to a point of the viewport.
pub open spec fn move_action(x: i32, y: i32) -> Seq<char> {
    "{\"type\":\"pointerMove\",\"duration\":0,\"origin\":\"viewport\",\"x\":"@ + signed_decimal(
        x as int,
    ) + ",\"y\":"@ + signed_decimal(y as int) + seq!['}']
}

/// The action that scrolls by a number of pixels from a point of the
/// viewport.
pub open spec fn scroll_action(x: i32, y: i32, delta_x: i32, delta_y: i32) -> Seq<char> {
    "{\"type\":\"scroll\",\n                            \"x\":"@ + signed_decimal(x as int)
        + ",\n                            \"y\":"@ + signed_decimal(y as int)
        + ",\n                            \"deltaX\":"@ + signed_decimal(delta_x as int)
        + ",\n                            \"deltaY\":"@ + signed_decimal(delta_y as int)
        + seq!['}']
}

/// The document of one input source: its kind and its actions.
pub open spec fn source_text(kind: Seq<char>, actions: Seq<JsonTree>) -> Seq<char> {
    "{\"type\":\""@ + kind + "\",\"actions\":"@ + json_text(JsonTree::Array(actions)) + seq!['}']
}

/// The text of a document with the member `id` put at its end: the number
/// `n` as a string.
pub open spec fn id_text(tree: JsonTree, n: nat) -> Seq<char> {
    without_last(json_text(tree)) + ",\"id\":\""@ + decimal(n) + "\"}"@
}

/// The document with the member `id`, where the text with it parses; the
/// document as it is where it does not.
pub open spec fn with_id(tree: JsonTree, n: nat) -> JsonTree {
    match parsed(id_text(tree, n)) {
        Some(t) => t,
        None => tree,
    }
}

/// The documents with the members `id`, numbered from one in their order.
pub open spec fn with_ids(list: Seq<JsonTree>) -> Seq<JsonTree> {
    Seq::new(list.len(), |i: int| with_id(list[i], (i + 1) as nat))
}

/// The body of the request that performs the actions.
pub open spec fn actions_body(list: Seq<JsonTree>) -> Seq<char> {
    "{\"actions\":"@ + json_text(JsonTree::Array(list)) + seq!['}']
}

/// The text that stands for a special key in an action: the JSON escape of
/// the key's code point.
pub open spec fn key_escape(spec_key: SpecialKey) -> Seq<char> {
    match spec_key {
        SpecialKey::ShiftLeft => "\\uE008"@,
        SpecialKey::ShiftRight => "\\uE050"@,
        SpecialKey::LeftCtrl => "\\uE009"@,
        SpecialKey::RightCtrl => "\\uE051"@,
        SpecialKey::F1 => "\\uE031"@,
        SpecialKey::F2 => "\\uE032"@,
        SpecialKey::F3 => "\\uE033"@,
        SpecialKey::F4 => "\\uE034"@,
        SpecialKey::F5 => "\\uE035"@,
        SpecialKey::F6 => "\\uE036"@,
        SpecialKey::F7 => "\\uE037"@,
        SpecialKey::F8 => "\\uE038"@,
        SpecialKey::F9 => "\\uE039"@,
        SpecialKey::F10 => "\\uE03A"@,
        SpecialKey::F11 => "\\uE03B"@,
        SpecialKey::F12 => "\\uE03C"@,
        SpecialKey::EndOne => "\\uE010"@,
        SpecialKey::HomeOne => "\\uE011"@,
        SpecialKey::EndTwo => "\\uE056"@,
        SpecialKey::HomeTwo => "\\uE057"@,
        SpecialKey::PageUpOne => "\\uE00E"@,
        SpecialKey::PageDownOne => "\\uE00F"@,
        SpecialKey::PageUpTwo => "\\uE054"@,
        SpecialKey::PageDownTwo => "\\uE055"@,
        SpecialKey::OSLeft => "\\uE03D"@,
        SpecialKey::OSRight => "\\uE053"@,
        SpecialKey::ZenkakuHankaku => "\\uE040"@,
        SpecialKey::AltLeft => "\\uE00A"@,
        SpecialKey::AltRight => "AltRight"@,
        SpecialKey::ArrowLeftOne => "\\uE012"@,
        SpecialKey::ArrowRightOne => "\\uE014"@,
        SpecialKey::ArrowUpOne => "\\uE013"@,
        SpecialKey::ArrowDownOne => "\\uE015"@,
        SpecialKey::ArrowLeftTwo => "\\uE058"@,
        SpecialKey::ArrowRightTwo => "\\uE05A"@,
        SpecialKey::ArrowUpTwo => "\\uE059"@,
        SpecialKey::ArrowDownTwo => "\\uE05B"@,
        SpecialKey::InsertOne => "\\uE016"@,
        SpecialKey::InsertTwo => "\\uE05C"@,
        SpecialKey::DeleteOne => "\\uE017"@,
        SpecialKey::DeleteTwo => "\\uE05D"@,
        SpecialKey::Cancel => "\\uE001"@,
        SpecialKey::Help => "\\uE002"@,
        SpecialKey::Tab => "\\uE004"@,
        SpecialKey::Backspace => "\\uE003"@,
        SpecialKey::Clear => "\\uE005"@,
        SpecialKey::Return => "\\uE006"@,
        SpecialKey::Enter => "\\uE006"@,
        SpecialKey::Pause => "\\uE00B"@,
        SpecialKey::Escape => "\\uE00C"@,
        SpecialKey::Space => "\\uE00D"@,
        SpecialKey::Numpad0 => "\\uE05C"@,
        SpecialKey::Numpad1 => "\\uE056"@,
        SpecialKey::Numpad2 => "\\uE05B"@,
        SpecialKey::Numpad3 => "\\uE055"@,
        SpecialKey::Numpad4 => "\\uE058"@,
        SpecialKey::Numpad5 => "\\uE01F"@,
        SpecialKey::Numpad6 => "\\uE05A"@,
        SpecialKey::Numpad7 => "\\uE057"@,
        SpecialKey::Numpad8 => "\\uE059"@,
        SpecialKey::Numpad9 => "\\uE054"@,
        SpecialKey::NumpadAdd => "\\uE025"@,
        SpecialKey::NumpadComma => "\\uE026"@,
        SpecialKey::NumpadDecimal => "\\uE05D"@,
        SpecialKey::NumpadDivide => "\\uE029"@,
        SpecialKey::NumpadEnter => "\\uE007"@,
        SpecialKey::NumpadMultiply => "\\uE024"@,
        SpecialKey::NumpadSubtract => "\\uE027"@,
    }
}

/// The text that stands for a special key in an action.
pub fn spec_key_to_string(spec_key: SpecialKey) -> (r: &'static str)
    ensures
        r@ == key_escape(spec_key),
{
    match spec_key {
        SpecialKey::ShiftLeft => "\\uE008",
        SpecialKey::ShiftRight => "\\uE050",
        SpecialKey::LeftCtrl => "\\uE009",
        SpecialKey::RightCtrl => "\\uE051",
        SpecialKey::F1 => "\\uE031",
        SpecialKey::F2 => "\\uE032",
        SpecialKey::F3 => "\\uE033",
        SpecialKey::F4 => "\\uE034",
        SpecialKey::F5 => "\\uE035",
        SpecialKey::F6 => "\\uE036",
        SpecialKey::F7 => "\\uE037",
        SpecialKey::F8 => "\\uE038",
        SpecialKey::F9 => "\\uE039",
        SpecialKey::F10 => "\\uE03A",
        SpecialKey::F11 => "\\uE03B",
        SpecialKey::F12 => "\\uE03C",
        SpecialKey::EndOne => "\\uE010",
        SpecialKey::HomeOne => "\\uE011",
        SpecialKey::EndTwo => "\\uE056",
        SpecialKey::HomeTwo => "\\uE057",
        SpecialKey::PageUpOne => "\\uE00E",
        SpecialKey::PageDownOne => "\\uE00F",
        SpecialKey::PageUpTwo => "\\uE054",
        SpecialKey::PageDownTwo => "\\uE055",
        SpecialKey::OSLeft => "\\uE03D",
        SpecialKey::OSRight => "\\uE053",
        SpecialKey::ZenkakuHankaku => "\\uE040",
        SpecialKey::AltLeft => "\\uE00A",
        SpecialKey::AltRight => "AltRight",
        SpecialKey::ArrowLeftOne => "\\uE012",
        SpecialKey::ArrowRightOne => "\\uE014",
        SpecialKey::ArrowUpOne => "\\uE013",
        SpecialKey::ArrowDownOne => "\\uE015",
        SpecialKey::ArrowLeftTwo => "\\uE058",
        SpecialKey::ArrowRightTwo => "\\uE05A",
        SpecialKey::ArrowUpTwo => "\\uE059",
        SpecialKey::ArrowDownTwo => "\\uE05B",
        SpecialKey::InsertOne => "\\uE016",
        SpecialKey::InsertTwo => "\\uE05C",
        SpecialKey::DeleteOne => "\\uE017",
        SpecialKey::DeleteTwo => "\\uE05D",
        SpecialKey::Cancel => "\\uE001",
        SpecialKey::Help => "\\uE002",
        SpecialKey::Tab => "\\uE004",
        SpecialKey::Backspace => "\\uE003",
        SpecialKey::Clear => "\\uE005",
        SpecialKey::Return => "\\uE006",
        SpecialKey::Enter => "\\uE006",
        SpecialKey::Pause => "\\uE00B",
        SpecialKey::Escape => "\\uE00C",
        SpecialKey::Space => "\\uE00D",
        SpecialKey::Numpad0 => "\\uE05C",
        SpecialKey::Numpad1 => "\\uE056",
        SpecialKey::Numpad2 => "\\uE05B",
        SpecialKey::Numpad3 => "\\uE055",
        SpecialKey::Numpad4 => "\\uE058",
        SpecialKey::Numpad5 => "\\uE01F",
        SpecialKey::Numpad6 => "\\uE05A",
        SpecialKey::Numpad7 => "\\uE057",
        SpecialKey::Numpad8 => "\\uE059",
        SpecialKey::Numpad9 => "\\uE054",
        SpecialKey::NumpadAdd => "\\uE025",
        SpecialKey::NumpadComma => "\\uE026",
        SpecialKey::NumpadDecimal => "\\uE05D",
        SpecialKey::NumpadDivide => "\\uE029",
        SpecialKey::NumpadEnter => "\\uE007",
        SpecialKey::NumpadMultiply => "\\uE024",
        SpecialKey::NumpadSubtract => "\\uE027",
    }
}

/// The number that the protocol knows a mouse button by.
pub fn mouse_button_to_string(button: MouseButton) -> (r: u8)
    ensures
        r == button_number(button),
{
    match button {
        MouseButton::Left => 0,
        MouseButton::Middle => 1,
        MouseButton::Right => 2,
        MouseButton::X1Back => 3,
        MouseButton::X2Forward => 4,
    }
}

fn key_action_text(kind: &str, key: &str) -> (r: String)
    ensures
        r@ == key_action(kind@, key@),
{
    let mut json = String::from_str("{\"type\":\"");
    json.append(kind);
    json.append("\",\"value\":\"");
    json.append(key);
    json.append("\"}");
    json
}

fn pause_action_text(duration: u32) -> (r: String)
    ensures
        r@ == pause_action(duration),
{
    let mut json = String::from_str("{\"type\":\"pause\",\"duration\":");
    push_decimal(&mut json, duration as u128);
    json.push('}');
    assert(json@ =~= pause_action(duration));
    json
}

fn button_action_text(kind: &str, button: MouseButton) -> (r: String)
    ensures
        r@ == button_action(kind@, button),
{
    let key = mouse_button_to_string(button);
    let mut json = String::from_str("{\"type\":\"");
    json.append(kind);
    json.append("\",\"button\":");
    push_decimal(&mut json, key as u128);
    json.push('}');
    assert(json@ =~= button_action(kind@, button));
    json
}

fn source_action_text(kind: &str, actions: &Vec<serde_json::Value>) -> (r: String)
    ensures
        r@ == source_text(kind@, trees(actions@)),
{
    let list = json_array(actions);
    let mut json = String::from_str("{\"type\":\"");
    json.append(kind);
    json.append("\",\"actions\":");
    json.append(json_compact(&list).as_str());
    json.push('}');
    assert(json@ =~= source_text(kind@, trees(actions@)));
    json
}

impl Actions {
    /// No actions.
    pub fn new() -> (r: Actions)
        ensures
            r.actions@.len() == 0,
    {
        Actions { actions: Vec::new() }
    }

    /// Gives every source its `id`: the sources are numbered from one in
    /// their order, and the number goes into the document as a string.
    pub fn set_ids(&mut self)
        ensures
            trees(final(self).actions@) == with_ids(trees(old(self).actions@)),
    {
        let mut act_with_ids: Vec<serde_json::Value> = Vec::new();
        let len = self.actions.len();
        let mut i: usize = 0;
        while i < len
            invariant
                i <= len,
                len == self.actions@.len(),
                *self == *old(self),
                act_with_ids@.len() == i,
                forall|j: int|
                    0 <= j < i ==> json_tree(#[trigger] act_with_ids@[j]) == with_id(
                        json_tree(self.actions@[j]),
                        (j + 1) as nat,
                    ),
            decreases len - i,
        {
            let mut st = json_compact(&self.actions[i]);
            let _ = st.pop();
            st.append(",\"id\":\"");
            push_decimal(&mut st, i as u128 + 1);
            st.append("\"}");
            assert(st@ =~= id_text(json_tree(self.actions@[i as int]), (i + 1) as nat));
            match json_from_slice(st.as_str().as_bytes()) {
                Ok(v) => {
                    act_with_ids.push(v);
                },
                Err(_) => {
                    let kept = json_array_item(&self.actions, i);
                    act_with_ids.push(kept);
                },
            }
            i += 1;
        }
        self.actions = act_with_ids;
        assert(trees(self.actions@) =~= with_ids(trees(old(self).actions@)));
    }

    /// Adds the key actions as one more source.
    pub fn add_key_actions(&mut self, key_actions: ActionsKeys) -> (r: &mut Self)
        ensures
            trees(r.actions@) == with_parsed(
                trees(old(self).actions@),
                source_text("key"@, trees(key_actions.actions@)),
            ),
            r.actions@.len() == old(self).actions@.len() + growth(
                source_text("key"@, trees(key_actions.actions@)),
            ),
            *final(self) == *final(r),
    {
        let temp_string = source_action_text("key", &key_actions.actions);
        push_parsed(&mut self.actions, temp_string.as_str());
        self
    }

    /// Adds the mouse actions as one more source.
    pub fn add_mouse_actions(&mut self, mouse_actions: ActionsMouse) -> (r: &mut Self)
        ensures
            trees(r.actions@) == with_parsed(
                trees(old(self).actions@),
                source_text("pointer"@, trees(mouse_actions.actions@)),
            ),
            r.actions@.len() == old(self).actions@.len() + growth(
                source_text("pointer"@, trees(mouse_actions.actions@)),
            ),
            *final(self) == *final(r),
    {
        let temp_string = source_action_text("pointer", &mouse_actions.actions);
        push_parsed(&mut self.actions, temp_string.as_str());
        self
    }

    /// Adds the wheel actions as one more source.
    pub fn add_wheel_actions(&mut self, wheel_actions: ActionsWheel) -> (r: &mut Self)
        ensures
            trees(r.actions@) == with_parsed(
                trees(old(self).actions@),
                source_text("wheel"@, trees(wheel_actions.actions@)),
            ),
            r.actions@.len() == old(self).actions@.len() + growth(
                source_text("wheel"@, trees(wheel_actions.actions@)),
            ),
            *final(self) == *final(r),
    {
        let temp_string = source_action_text("wheel", &wheel_actions.actions);
        push_parsed(&mut self.actions, temp_string.as_str());
        self
    }

    /// The body of the request that performs the actions as they are.
    pub fn to_json(&self) -> (r: String)
        ensures
            r@ == actions_body(trees(self.actions@)),
    {
        let list = json_array(&self.actions);
        let mut body = String::from_str("{\"actions\":");
        body.append(json_compact(&list).as_str());
        body.push('}');
        assert(body@ =~= actions_body(trees(self.actions@)));
        body
    }
}

/// `Value::clone` on one item of a list.
#[verifier::external_body]
fn json_array_item(items: &Vec<serde_json::Value>, i: usize) -> (r: serde_json::Value)
    requires
        i < items@.len(),
    ensures
        json_tree(r) == json_tree(items@[i as int]),
{
    items[i].clone()
}

impl ActionsKeys {
    /// No actions.
    pub fn new() -> (r: ActionsKeys)
        ensures
            r.actions@.len() == 0,
    {
        ActionsKeys { actions: Vec::new() }
    }

    /// Presses a key. A key that breaks the text of the action, such as a
    /// double quote, adds nothing; the length of the list tells.
    pub fn press_key(&mut self, key: &str) -> (r: &mut Self)
        ensures
            trees(r.actions@) == with_parsed(
                trees(old(self).actions@),
                key_action("keyDown"@, key@),
            ),
            r.actions@.len() == old(self).actions@.len() + growth(key_action("keyDown"@, key@)),
            *final(self) == *final(r),
    {
        let json = key_action_text("keyDown", key);
        push_parsed(&mut self.actions, json.as_str());
        self
    }

    /// Releases a key. A key that breaks the text of the action adds
    /// nothing; the length of the list tells.
    pub fn release_key(&mut self, key: &str) -> (r: &mut Self)
        ensures
            trees(r.actions@) == with_parsed(
                trees(old(self).actions@),
                key_action("keyUp"@, key@),
            ),
            r.actions@.len() == old(self).actions@.len() + growth(key_action("keyUp"@, key@)),
            *final(self) == *final(r),
    {
        let json = key_action_text("keyUp", key);
        push_parsed(&mut self.actions, json.as_str());
        self
    }

    /// Presses a special key.
    pub fn press_special_key(&mut self, spec_key: SpecialKey) -> (r: &mut Self)
        ensures
            trees(r.actions@) == with_parsed(
                trees(old(self).actions@),
                key_action("keyDown"@, key_escape(spec_key)),
            ),
            r.actions@.len() == old(self).actions@.len() + growth(
                key_action("keyDown"@, key_escape(spec_key)),
            ),
            *final(self) == *final(r),
    {
        let key = spec_key_to_string(spec_key);
        let json = key_action_text("keyDown", key);
        push_parsed(&mut self.actions, json.as_str());
        self
    }

    /// Releases a special key.
    pub fn release_special_key(&mut self, spec_key: SpecialKey) -> (r: &mut Self)
        ensures
            trees(r.actions@) == with_parsed(
                trees(old(self).actions@),
                key_action("keyUp"@, key_escape(spec_key)),
            ),
            r.actions@.len() == old(self).actions@.len() + growth(
                key_action("keyUp"@, key_escape(spec_key)),
            ),
            *final(self) == *final(r),
    {
        let key = spec_key_to_string(spec_key);
        let json = key_action_text("keyUp", key);
        push_parsed(&mut self.actions, json.as_str());
        self
    }

    /// Pauses for `duration` milliseconds.
    pub fn pause(&mut self, duration: u32) -> (r: &mut Self)
        ensures
            trees(r.actions@) == with_parsed(trees(old(self).actions@), pause_action(duration)),
            r.actions@.len() == old(self).actions@.len() + growth(pause_action(duration)),
            *final(self) == *final(r),
    {
        let json = pause_action_text(duration);
        push_parsed(&mut self.actions, json.as_str());
        self
    }
}

impl ActionsMouse {
    /// No actions.
    pub fn new() -> (r: ActionsMouse)
        ensures
            r.actions@.len() == 0,
    {
        ActionsMouse { actions: Vec::new() }
    }

    /// Pauses for `duration` milliseconds.
    pub fn pause(&mut self, duration: u32) -> (r: &mut Self)
        ensures
            trees(r.actions@) == with_parsed(trees(old(self).actions@), pause_action(duration)),
            r.actions@.len() == old(self).actions@.len() + growth(pause_action(duration)),
            *final(self) == *final(r),
    {
        let json = pause_action_text(duration);
        push_parsed(&mut self.actions, json.as_str());
        self
    }

    /// Presses a mouse button.
    pub fn press_mouse_button(&mut self, button: MouseButton) -> (r: &mut Self)
        ensures
            trees(r.actions@) == with_parsed(
                trees(old(self).actions@),
                button_action("pointerDown"@, button),
            ),
            r.actions@.len() == old(self).actions@.len() + growth(
                button_action("pointerDown"@, button),
            ),
            *final(self) == *final(r),
    {
        let json = button_action_text("pointerDown", button);
        push_parsed(&mut self.actions, json.as_str());
        self
    }

    /// Releases a mouse button.
    pub fn release_mouse_button(&mut self, button: MouseButton) -> (r: &mut Self)
        ensures
            trees(r.actions@) == with_parsed(
                trees(old(self).actions@),
                button_action("pointerUp"@, button),
            ),
            r.actions@.len() == old(self).actions@.len() + growth(
                button_action("pointerUp"@, button),
            ),
            *final(self) == *final(r),
    {
        let json = button_action_text("pointerUp", button);
        push_parsed(&mut self.actions, json.as_str());
        self
    }

    /// Moves the mouse to a point of the viewport.
    pub fn move_mouse_to_point(&mut self, x: i32, y: i32) -> (r: &mut Self)
        ensures
            trees(r.actions@) == with_parsed(trees(old(self).actions@), move_action(x, y)),
            r.actions@.len() == old(self).actions@.len() + growth(move_action(x, y)),
            *final(self) == *final(r),
    {
        let mut json = String::from_str(
            "{\"type\":\"pointerMove\",\"duration\":0,\"origin\":\"viewport\",\"x\":",
        );
        push_signed_decimal(&mut json, x as i64);
        json.append(",\"y\":");
        push_signed_decimal(&mut json, y as i64);
        json.push('}');
        assert(json@ =~= move_action(x, y));
        push_parsed(&mut self.actions, json.as_str());
        self
    }

    /// Cancels the pointer action under way.
    pub fn cancel_action(&mut self) -> (r: &mut Self)
        ensures
            trees(r.actions@) == with_parsed(
                trees(old(self).actions@),
                "{\"type\":\"pointerCancel\"}"@,
            ),
            r.actions@.len() == old(self).actions@.len() + growth(
                "{\"type\":\"pointerCancel\"}"@,
            ),
            *final(self) == *final(r),
    {
        push_parsed(&mut self.actions, "{\"type\":\"pointerCancel\"}");
        self
    }
}

impl ActionsWheel {
    /// No actions.
    pub fn new() -> (r: ActionsWheel)
        ensures
            r.actions@.len() == 0,
    {
        ActionsWheel { actions: Vec::new() }
    }

    /// Pauses for `duration` milliseconds.
    pub fn pause(&mut self, duration: u32) -> (r: &mut Self)
        ensures
            trees(r.actions@) == with_parsed(trees(old(self).actions@), pause_action(duration)),
            r.actions@.len() == old(self).actions@.len() + growth(pause_action(duration)),
            *final(self) == *final(r),
    {
        let json = pause_action_text(duration);
        push_parsed(&mut self.actions, json.as_str());
        self
    }

    /// Scrolls by a number of pixels, positive or negative, from a point of
    /// the viewport.
    pub fn scroll(
        &mut self,
        init_x_position: i32,
        init_y_position: i32,
        x_axis_scroll: i32,
        y_axis_scroll: i32,
    ) -> (r: &mut Self)
        ensures
            trees(r.actions@) == with_parsed(
                trees(old(self).actions@),
                scroll_action(init_x_position, init_y_position, x_axis_scroll, y_axis_scroll),
            ),
            r.actions@.len() == old(self).actions@.len() + growth(
                scroll_action(init_x_position, init_y_position, x_axis_scroll, y_axis_scroll),
            ),
            *final(self) == *final(r),
    {
        let mut json = String::from_str("{\"type\":\"scroll\",\n                            \"x\":");
        push_signed_decimal(&mut json, init_x_position as i64);
        json.append(",\n                            \"y\":");
        push_signed_decimal(&mut json, init_y_position as i64);
        json.append(",\n                            \"deltaX\":");
        push_signed_decimal(&mut json, x_axis_scroll as i64);
        json.append(",\n                            \"deltaY\":");
        push_signed_decimal(&mut json, y_axis_scroll as i64);
        json.push('}');
        assert(json@ =~= scroll_action(
            init_x_position,
            init_y_position,
            x_axis_scroll,
            y_axis_scroll,
        ));
        push_parsed(&mut self.actions, json.as_str());
        self
    }
}

} // verus!
