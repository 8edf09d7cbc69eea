//! Elements of a page and the commands that address them.

use crate::decode::{
    element_ids_in, element_ids_list_in, is_element_array, is_element_member, is_element_object,
    names_element, names_elements, parse_reply,
};
use crate::json::{json_entry, json_tree, JsonTree};
use crate::reply::{is_error_reply, reply_value};
use crate::reqs::{body_for_find_element, find_element_text, LocatorStrategy, WireRequest};
use crate::text::{chars_of, find_chars, first_index, has_substring, lemma_first_index};
use vstd::prelude::*;
use vstd::string::*;

verus! {

/// An element of a page, as the server handed it out.
#[derive(Debug)]
pub struct Element {
    pub ip: String,
    pub port: String,
    pub element_gr_id: String,
    pub element_id: String,
    pub element_url: String,
}

fn sub_path(base: &str, suffix: &str) -> (r: String)
    ensures
        r@ == base@ + suffix@,
{
    let mut path = String::from_str(base);
    path.append(suffix);
    path
}

fn named_path(base: &str, infix: &str, name: &str) -> (r: String)
    ensures
        r@ == base@ + infix@ + name@,
{
    let mut path = String::from_str(base);
    path.append(infix);
    path.append(name);
    path
}

/// The text before the first `pat`, or all of it where `pat` does not stand
/// in it.
pub open spec fn before_first(text: Seq<char>, pat: Seq<char>) -> Seq<char> {
    if has_substring(text, pat) {
        text.take(first_index(text, pat))
    } else {
        text
    }
}

/// `el` is the element `key`/`id` of the session whose path is `base`, on
/// the server at `ip` and `port`.
pub open spec fn is_element_at(
    el: Element,
    ip: Seq<char>,
    port: Seq<char>,
    base: Seq<char>,
    key: Seq<char>,
    id: Seq<char>,
) -> bool {
    &&& el.ip@ == ip
    &&& el.port@ == port
    &&& el.element_gr_id@ == key
    &&& el.element_id@ == id
    &&& el.element_url@ == base + "/element/"@ + id
}

/// `el` is an element that the object `v` names, of the session whose path
/// is `base`, on the server at `ip` and `port`.
pub open spec fn is_element_of(
    el: Element,
    ip: Seq<char>,
    port: Seq<char>,
    base: Seq<char>,
    v: JsonTree,
) -> bool {
    &&& is_element_member(v, el.element_gr_id@, el.element_id@)
    &&& is_element_at(el, ip, port, base, el.element_gr_id@, el.element_id@)
}

/// `list` holds one element for each item of the array `v`, in its order.
pub open spec fn are_elements_of(
    list: Seq<Element>,
    ip: Seq<char>,
    port: Seq<char>,
    base: Seq<char>,
    v: JsonTree,
) -> bool {
    &&& v is Array
    &&& list.len() == v->Array_0.len()
    &&& forall|i: int|
        0 <= i < list.len() ==> is_element_of(#[trigger] list[i], ip, port, base, v->Array_0[i])
}

/// The element `key`/`id` of the session whose path is `base`.
pub fn element_at(ip: &str, port: &str, base: &str, key: String, id: String) -> (r: Element)
    ensures
        is_element_at(r, ip@, port@, base@, key@, id@),
{
    let mut element_url = String::from_str(base);
    element_url.append("/element/");
    element_url.append(id.as_str());
    Element {
        ip: String::from_str(ip),
        port: String::from_str(port),
        element_gr_id: key,
        element_id: id,
        element_url,
    }
}

/// The element that a reply names. A reply that reports an error or names
/// no element is handed back as the failure.
pub fn element_of_reply(ip: &str, port: &str, base: &str, resp: String) -> (r: Result<
    Element,
    String,
>)
    ensures
        match r {
            Ok(el) => reply_value(resp@) matches Some(v) && is_element_object(v) && is_element_of(
                el,
                ip@,
                port@,
                base@,
                v,
            ),
            Err(e) => e == resp && !(reply_value(resp@) matches Some(v) && is_element_object(v)),
        },
{
    if is_error_reply(resp.as_str()) {
        return Err(resp);
    }
    let doc = match parse_reply(resp.as_str()) {
        Some(doc) => doc,
        None => {
            return Err(resp);
        },
    };
    let found = match json_entry(&doc, "value") {
        Some(value) => element_ids_in(value),
        None => None,
    };
    match found {
        Some((key, id)) => Ok(element_at(ip, port, base, key, id)),
        None => Err(resp),
    }
}

/// The elements that a reply names, in its order. A reply that reports an
/// error or carries anything but a list of elements is handed back as the
/// failure.
pub fn elements_of_reply(ip: &str, port: &str, base: &str, resp: String) -> (r: Result<
    Vec<Element>,
    String,
>)
    ensures
        match r {
            Ok(list) => reply_value(resp@) matches Some(v) && are_elements_of(
                list@,
                ip@,
                port@,
                base@,
                v,
            ),
            Err(e) => e == resp && !(reply_value(resp@) matches Some(v) && is_element_array(v)),
        },
{
    if is_error_reply(resp.as_str()) {
        return Err(resp);
    }
    let doc = match parse_reply(resp.as_str()) {
        Some(doc) => doc,
        None => {
            return Err(resp);
        },
    };
    let value = match json_entry(&doc, "value") {
        Some(value) => value,
        None => {
            return Err(resp);
        },
    };
    let ids = match element_ids_list_in(value) {
        Some(ids) => ids,
        None => {
            return Err(resp);
        },
    };
    let ghost tree = json_tree(*value);
    let mut result: Vec<Element> = Vec::new();
    let mut i: usize = 0;
    while i < ids.len()
        invariant
            i <= ids.len(),
            names_elements(tree, ids@),
            result@.len() == i,
            forall|j: int|
                0 <= j < i ==> is_element_of(
                    #[trigger] result@[j],
                    ip@,
                    port@,
                    base@,
                    tree->Array_0[j],
                ),
        decreases ids.len() - i,
    {
        let key = ids[i].0.clone();
        let id = ids[i].1.clone();
        assert(names_element(tree->Array_0[i as int], ids@[i as int]));
        result.push(element_at(ip, port, base, key, id));
        i += 1;
    }
    Ok(result)
}

impl Element {
    /// Asks for the first descendant that the locator finds.
    pub fn find_element_from_self(&self, locator: LocatorStrategy) -> (r: WireRequest)
        ensures
            r.is_post(self.element_url@ + "/element"@, find_element_text(locator)),
    {
        let url = sub_path(self.element_url.as_str(), "/element");
        let body = body_for_find_element(locator);
        WireRequest::post(url.as_str(), body.as_str())
    }

    /// Asks for all descendants that the locator finds.
    pub fn find_elements_from_self(&self, locator: LocatorStrategy) -> (r: WireRequest)
        ensures
            r.is_post(self.element_url@ + "/elements"@, find_element_text(locator)),
    {
        let url = sub_path(self.element_url.as_str(), "/elements");
        let body = body_for_find_element(locator);
        WireRequest::post(url.as_str(), body.as_str())
    }

    /// Asks whether the element is selected.
    pub fn is_selected(&self) -> (r: WireRequest)
        ensures
            r.is_get(self.element_url@ + "/selected"@),
    {
        WireRequest::get(sub_path(self.element_url.as_str(), "/selected").as_str())
    }

    /// Asks for an attribute of the element.
    pub fn get_attribute(&self, attribute_name: &str) -> (r: WireRequest)
        ensures
            r.is_get(self.element_url@ + "/attribute/"@ + attribute_name@),
    {
        WireRequest::get(
            named_path(self.element_url.as_str(), "/attribute/", attribute_name).as_str(),
        )
    }

    /// Asks for a property of the element.
    pub fn get_property(&self, property_name: &str) -> (r: WireRequest)
        ensures
            r.is_get(self.element_url@ + "/property/"@ + property_name@),
    {
        WireRequest::get(
            named_path(self.element_url.as_str(), "/property/", property_name).as_str(),
        )
    }

    /// Asks for the computed value of a CSS property of the element.
    pub fn get_css_value(&self, css_property_name: &str) -> (r: WireRequest)
        ensures
            r.is_get(self.element_url@ + "/css/"@ + css_property_name@),
    {
        WireRequest::get(named_path(self.element_url.as_str(), "/css/", css_property_name).as_str())
    }

    /// Asks for the text of the element.
    pub fn get_element_text(&self) -> (r: WireRequest)
        ensures
            r.is_get(self.element_url@ + "/text"@),
    {
        WireRequest::get(sub_path(self.element_url.as_str(), "/text").as_str())
    }

    /// Asks for the tag name of the element.
    pub fn get_tag_name(&self) -> (r: WireRequest)
        ensures
            r.is_get(self.element_url@ + "/name"@),
    {
        WireRequest::get(sub_path(self.element_url.as_str(), "/name").as_str())
    }

    /// Asks for size and position of the element.
    pub fn get_element_rect(&self) -> (r: WireRequest)
        ensures
            r.is_get(self.element_url@ + "/rect"@),
    {
        WireRequest::get(sub_path(self.element_url.as_str(), "/rect").as_str())
    }

    /// Asks whether the element is enabled.
    pub fn is_enabled(&self) -> (r: WireRequest)
        ensures
            r.is_get(self.element_url@ + "/enabled"@),
    {
        WireRequest::get(sub_path(self.element_url.as_str(), "/enabled").as_str())
    }

    /// Asks for the computed role of the element.
    pub fn get_computed_role(&self) -> (r: WireRequest)
        ensures
            r.is_get(self.element_url@ + "/computedrole"@),
    {
        WireRequest::get(sub_path(self.element_url.as_str(), "/computedrole").as_str())
    }

    /// Asks for the computed label of the element.
    pub fn get_computed_label(&self) -> (r: WireRequest)
        ensures
            r.is_get(self.element_url@ + "/computedlabel"@),
    {
        WireRequest::get(sub_path(self.element_url.as_str(), "/computedlabel").as_str())
    }

    /// Clicks the element.
    pub fn click(&self) -> (r: WireRequest)
        ensures
            r.is_post(self.element_url@ + "/click"@, "{}"@),
    {
        WireRequest::post(sub_path(self.element_url.as_str(), "/click").as_str(), "{}")
    }

    /// Clears the text of the element.
    pub fn clear_element(&self) -> (r: WireRequest)
        ensures
            r.is_post(self.element_url@ + "/clear"@, "{}"@),
    {
        WireRequest::post(sub_path(self.element_url.as_str(), "/clear").as_str(), "{}")
    }

    /// Types `message` into the element.
    pub fn send_keys(&self, message: &str) -> (r: WireRequest)
        ensures
            r.is_post(self.element_url@ + "/value"@, "{\"text\":\""@ + message@ + "\"}"@),
    {
        let mut body = String::from_str("{\"text\":\"");
        body.append(message);
        body.append("\"}");
        WireRequest::post(sub_path(self.element_url.as_str(), "/value").as_str(), body.as_str())
    }
    /// The path of the session that the element belongs to: what stands
    /// before the first `/element` in the element's own path.
    pub fn session_base(&self) -> (r: String)
        ensures
            r@ == before_first(self.element_url@, "/element"@),
    {
        let text = chars_of(self.element_url.as_str());
        let pat = chars_of("/element");
        match find_chars(&text, &pat) {
            None => self.element_url.clone(),
            Some(i) => {
                proof {
                    lemma_first_index(text@, pat@, i as int);
                }
                let mut base = String::new();
                let mut k: usize = 0;
                while k < i
                    invariant
                        k <= i <= text.len(),
                        base@ == text@.take(k as int),
                    decreases i - k,
                {
                    base.push(text[k]);
                    k += 1;
                    assert(base@ =~= text@.take(k as int));
                }
                base
            },
        }
    }

    /// The descendant that a reply names. A reply that reports an error or
    /// names no element is handed back as the failure.
    pub fn element_from_reply(&self, resp: String) -> (r: Result<Element, String>)
        ensures
            match r {
                Ok(el) => reply_value(resp@) matches Some(v) && is_element_object(v)
                    && is_element_of(
                    el,
                    self.ip@,
                    self.port@,
                    before_first(self.element_url@, "/element"@),
                    v,
                ),
                Err(e) => e == resp && !(reply_value(resp@) matches Some(v) && is_element_object(
                    v,
                )),
            },
    {
        let base = self.session_base();
        element_of_reply(self.ip.as_str(), self.port.as_str(), base.as_str(), resp)
    }

    /// The descendants that a reply names, in its order. A reply that
    /// reports an error or carries anything but a list of elements is handed
    /// back as the failure.
    pub fn elements_from_reply(&self, resp: String) -> (r: Result<Vec<Element>, String>)
        ensures
            match r {
                Ok(list) => reply_value(resp@) matches Some(v) && are_elements_of(
                    list@,
                    self.ip@,
                    self.port@,
                    before_first(self.element_url@, "/element"@),
                    v,
                ),
                Err(e) => e == resp && !(reply_value(resp@) matches Some(v) && is_element_array(v)),
            },
    {
        let base = self.session_base();
        elements_of_reply(self.ip.as_str(), self.port.as_str(), base.as_str(), resp)
    }
}

} // verus!
