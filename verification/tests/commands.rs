use selenium_webdriver::actions::{mouse_button_to_string, spec_key_to_string};
use selenium_webdriver::browser::{
    browser_name, create_chrome_session, create_firefox_session,
    create_json_body_for_session_with_chrome_options,
    create_json_body_for_session_with_firefox_options,
    create_json_body_for_session_with_safari_options, create_safari_session,
    create_session_body_json, gen_args, gen_script_args, generate_browser_links, orientation_name,
};
use selenium_webdriver::decode::{
    bool_value_in, cookies_in, element_ids_in, element_ids_list_in, from_value_to_cookie,
    parse_reply, session_id_in, string_list_in, string_value_in, timeouts_in, window_pair_in,
    window_rect_in,
};
use selenium_webdriver::element::{element_at, element_of_reply, elements_of_reply};
use selenium_webdriver::envelope::extract_text;
use selenium_webdriver::frame::body_text;
use selenium_webdriver::json::json_quote;
use selenium_webdriver::reply::{
    attribute_from_reply, bool_from_reply, confirm_success, cookie_from_reply,
    cookies_from_reply, expect_success, fail_on_error, handles_from_reply, is_error_reply, property_unless_error,
    raw_unless_error, session_from_reply, session_unless_error, string_from_reply,
    text_unless_error, timeouts_from_reply, window_from_reply, window_rect_from_reply,
};
use selenium_webdriver::{
    Actions, ActionsKeys, ActionsMouse, ActionsWheel, Browser, BrowserName, Capabilities,
    ChromeOptions, CommandError, Cookie, FirefoxOptions, LocatorStrategy, Margin, Method, MouseButton,
    NewWindowType, Orientation, SafariOptions, SpecialKey, Timeouts, TransportError, WindowRect,
    WireRequest,
};

fn doc(text: &str) -> serde_json::Value {
    serde_json::from_str(text).unwrap()
}

fn session() -> Browser {
    generate_browser_links("127.0.0.1", "4444", "abc")
}

fn assert_get(req: WireRequest, path: &str) {
    assert_eq!(req.method, Method::GET);
    assert_eq!(req.path, path);
    assert!(req.headers.is_empty());
    assert_eq!(req.body, "");
}

fn assert_delete(req: WireRequest, path: &str) {
    assert_eq!(req.method, Method::DELETE);
    assert_eq!(req.path, path);
    assert!(req.headers.is_empty());
    assert_eq!(req.body, "");
}

fn assert_post(req: WireRequest, path: &str, body: &str) {
    assert_eq!(req.method, Method::POST);
    assert_eq!(req.path, path);
    assert_eq!(req.headers, vec![format!("Content-Length:{}", body.len() + 2)]);
    assert_eq!(req.body, body);
}

#[test]
fn actions_vec_lens() {
    let mut ac = Actions::new();
    let mut ma = ActionsMouse::new();
    ma.press_mouse_button(MouseButton::Left);
    ma.pause(5);
    ma.press_mouse_button(MouseButton::Right);
    assert!(ma.actions.len() == 3);
    ac.add_mouse_actions(ma);
    assert!(ac.actions.len() == 1);
}

#[test]
fn browser_args() {
    let a = vec!["--headless", "--window-size=800,400"];
    assert!(gen_args(a) == String::from("[\"--headless\",\"--window-size=800,400\"]"));
}

#[test]
fn browser_check_timouts_init() {
    let mut t = Timeouts::new();
    assert_eq!(
        t,
        Timeouts {
            implicit: 0,
            pageLoad: 300000,
            script: 30000
        }
    );
    t.set_implicit(1);
    assert_eq!(
        t,
        Timeouts {
            implicit: 1,
            pageLoad: 300000,
            script: 30000
        }
    );
    t.set_page_load(1);
    assert_eq!(
        t,
        Timeouts {
            implicit: 1,
            pageLoad: 1,
            script: 30000
        }
    );
    t.set_script(1);
    assert_eq!(
        t,
        Timeouts {
            implicit: 1,
            pageLoad: 1,
            script: 1
        }
    );
}

#[test]
fn argument_lists() {
    assert_eq!(gen_args(vec![]), "[]");
    assert_eq!(gen_args(vec!["a"]), "[\"a\"]");
    assert_eq!(gen_script_args(&vec![]), "[]");
    assert_eq!(gen_script_args(&vec!["5", "\"Jack\"", "15"]), "[5,\"Jack\",15]");
}

#[test]
fn names_of_browsers_and_orientations() {
    assert_eq!(browser_name(&BrowserName::Chrome), "chrome");
    assert_eq!(browser_name(&BrowserName::Firefox), "firefox");
    assert_eq!(browser_name(&BrowserName::Safari), "safari");
    assert_eq!(orientation_name(&Orientation::PORTRAIT), "portrait");
    assert_eq!(orientation_name(&Orientation::LANDSCAPE), "landscape");
}

#[test]
fn links_of_a_session() {
    let b = generate_browser_links("10.0.0.1", "5555", "abc");
    assert_eq!(b.ip, "10.0.0.1");
    assert_eq!(b.port, "5555");
    let expected = vec![
        (&b.session_url, ""),
        (&b.go_to_url, "/url"),
        (&b.timeouts_url, "/timeouts"),
        (&b.back_url, "/back"),
        (&b.forward_url, "/forward"),
        (&b.refresh_url, "/refresh"),
        (&b.title_url, "/title"),
        (&b.window_url, "/window"),
        (&b.window_handles_url, "/window/handles"),
        (&b.window_new_url, "/window/new"),
        (&b.window_rect_url, "/window/rect"),
        (&b.frame_url, "/frame"),
        (&b.frame_parent_url, "/frame/parent"),
        (&b.window_maximize_url, "/window/maximize"),
        (&b.window_minimize_url, "/window/minimize"),
        (&b.window_fullscreen_url, "/window/fullscreen"),
        (&b.element_url, "/element"),
        (&b.element_active_url, "/element/active"),
        (&b.elements_url, "/elements"),
        (&b.source_url, "/source"),
        (&b.execute_sync_url, "/execute/sync"),
        (&b.execute_async_url, "/execute/async"),
        (&b.cookie_url, "/cookie"),
        (&b.actions_url, "/actions"),
        (&b.alert_dismiss_url, "/alert/dismiss"),
        (&b.alert_accept_url, "/alert/accept"),
        (&b.alert_text_url, "/alert/text"),
        (&b.screenshot_url, "/screenshot"),
        (&b.print_page_url, "/print"),
    ];
    for (field, suffix) in expected {
        assert_eq!(field, &format!("wd/hub/session/abc{}", suffix));
    }
}

#[test]
fn session_bodies() {
    assert_eq!(
        create_chrome_session(vec!["--headless"], "linux"),
        r#"{"capabilities": {"alwaysMatch":{"platformName":"linux"},"firstMatch":[{"browserName":"chrome","goog:chromeOptions":{"args":["--headless"]}}]}}"#
    );
    assert_eq!(
        create_firefox_session("windows"),
        r#"{"capabilities": {"alwaysMatch":{"platformName":"windows"},"firstMatch":[{"browserName":"firefox"}]}}"#
    );
    assert_eq!(
        create_safari_session("macos"),
        r#"{"capabilities": {"alwaysMatch":{"platformName":"macos"},"firstMatch":[{"browserName":"safari"}]}}"#
    );
    assert_eq!(
        create_session_body_json(BrowserName::Chrome, vec![], "linux"),
        create_chrome_session(vec![], "linux")
    );
    assert_eq!(
        create_session_body_json(BrowserName::Firefox, vec!["ignored"], "linux"),
        create_firefox_session("linux")
    );
    assert_eq!(
        create_session_body_json(BrowserName::Safari, vec!["ignored"], "linux"),
        create_safari_session("linux")
    );
}

#[test]
fn session_bodies_with_options() {
    let mut ch = ChromeOptions::new();
    ch.add_args(vec!["--headless"]);
    assert_eq!(
        create_json_body_for_session_with_chrome_options(ch, "linux"),
        "{\n            \"capabilities\": {\n                \"alwaysMatch\": {\n                    \"platformName\": \"linux\"\n                },\n                \"firstMatch\": [\n                    {\"browserName\": \"chrome\",\n                        \"goog:chromeOptions\":{\"args\":[\"--headless\"]}\n                    }\n                ]\n            }\n        }"
    );
    let mut ff = FirefoxOptions::new();
    ff.add_binary("/bin/ff");
    assert_eq!(
        create_json_body_for_session_with_firefox_options(ff, "linux"),
        "{\n            \"capabilities\": {\n                \"alwaysMatch\": {\n                    \"platformName\": \"linux\"\n                },\n                \"firstMatch\": [\n                    {\"browserName\": \"firefox\",\n                        \"moz:firefoxOptions\":{\"binary\":\"/bin/ff\"}\n                    }\n                ]\n            }\n        }"
    );
    let mut saf = SafariOptions::new();
    saf.enable_diagnose();
    assert_eq!(
        create_json_body_for_session_with_safari_options(saf, "macos"),
        "\n        {\n            \"capabilities\":{\n                \"alwaysMatch\":\n                    {\n                        \"platformName\":\"macos\",\n                        \"browserName\":\"safari\",\n                        \"safari:diagnose\":true\n                    }\n            }\n        }"
    );
}

#[test]
fn session_requests() {
    assert_post(
        Browser::start_session(BrowserName::Chrome, vec!["--headless"], "linux"),
        "wd/hub/session",
        &create_chrome_session(vec!["--headless"], "linux"),
    );
    let cap = Capabilities::new(BrowserName::Firefox, "linux");
    let body = cap.cap_string.clone();
    assert_post(Browser::start_session_with_capabilities(cap), "wd/hub/session", &body);
    let cap = Capabilities::new(BrowserName::Firefox, "linux");
    assert_post(
        Browser::start_remote_session_with_capabilities(cap),
        "wd/hub/session",
        &body,
    );
    assert_post(
        Browser::start_remote_session(BrowserName::Safari, "macos"),
        "wd/hub/session",
        "{\n            \"capabilities\": {\n                \"alwaysMatch\": {\n                    \"platformName\": \"macos\"\n                },\n                \"firstMatch\": [\n                    {\"browserName\": \"safari\"}\n                ]\n            }\n        }\n        ",
    );
    let mut ch = ChromeOptions::new();
    ch.add_detach(false);
    let mut same = ChromeOptions::new();
    same.add_detach(false);
    assert_post(
        Browser::start_chrome_session_with_options(ch, "linux"),
        "wd/hub/session",
        &create_json_body_for_session_with_chrome_options(same, "linux"),
    );
    assert_post(
        Browser::start_firefox_session_with_options(FirefoxOptions::new(), "linux"),
        "wd/hub/session",
        &create_json_body_for_session_with_firefox_options(FirefoxOptions::new(), "linux"),
    );
    assert_post(
        Browser::start_safari_session_with_options(SafariOptions::new(), "macos"),
        "wd/hub/session",
        &create_json_body_for_session_with_safari_options(SafariOptions::new(), "macos"),
    );
}

#[test]
fn browser_requests() {
    let b = session();
    assert_post(b.open("https://vk.com"), "wd/hub/session/abc/url", r#"{"url":"https://vk.com"}"#);
    assert_eq!(
        b.open("https://vk.com").to_wire(),
        "POST /wd/hub/session/abc/url HTTP/1.1\r\nHost: 127.0.0.1\r\nContent-Length:26\r\n\r\n\r\n{\"url\":\"https://vk.com\"}"
    );
    assert_get(b.get_link(), "wd/hub/session/abc/url");
    assert_delete(b.close_browser(), "wd/hub/session/abc");
    assert_get(b.get_timeouts(), "wd/hub/session/abc/timeouts");
    assert_post(
        b.set_timeouts(&Timeouts::set_all(1000, 3000, 300000)),
        "wd/hub/session/abc/timeouts",
        r#"{"implicit":1000,"pageLoad":3000,"script":300000}"#,
    );
    assert_post(b.back(), "wd/hub/session/abc/back", r#"{"return":true}"#);
    assert_post(b.forward(), "wd/hub/session/abc/forward", r#"{"forward":true}"#);
    assert_post(b.refresh(), "wd/hub/session/abc/refresh", r#"{"refresh":true}"#);
    assert_get(b.get_title(), "wd/hub/session/abc/title");
    assert_get(b.get_window_handle(), "wd/hub/session/abc/window");
    assert_get(b.get_window_handles(), "wd/hub/session/abc/window/handles");
    assert_post(
        b.switch_to_window("CDwindow-1".to_string()),
        "wd/hub/session/abc/window",
        r#"{"handle":"CDwindow-1"}"#,
    );
    assert_post(b.new_window(NewWindowType::Tab), "wd/hub/session/abc/window/new", r#"{"type":"tab"}"#);
    assert_post(
        b.new_window(NewWindowType::Window),
        "wd/hub/session/abc/window/new",
        r#"{"type":"window"}"#,
    );
    assert_delete(b.close_window(), "wd/hub/session/abc/window");
    assert_post(b.switch_to_frame_by_id(1), "wd/hub/session/abc/frame", r#"{"id":1}"#);
    assert_post(
        b.switch_to_frame_by_id(u64::MAX),
        "wd/hub/session/abc/frame",
        r#"{"id":18446744073709551615}"#,
    );
    let el = element_at("127.0.0.1", "4444", "wd/hub/session/abc", "element-6066".into(), "e1".into());
    assert_post(
        b.switch_to_frame_by_element(el),
        "wd/hub/session/abc/frame",
        r#"{"id":{"element-6066":"e1"}}"#,
    );
    assert_post(b.switch_to_parent_frame(), "wd/hub/session/abc/frame/parent", "{}");
    assert_get(b.get_active_element(), "wd/hub/session/abc/element/active");
    assert_post(
        b.find_element(LocatorStrategy::CSS("#ts_input")),
        "wd/hub/session/abc/element",
        r##"{"using":"css selector","value":"#ts_input"}"##,
    );
    assert_post(
        b.find_elements(LocatorStrategy::TAGNAME("a")),
        "wd/hub/session/abc/elements",
        r#"{"using":"tag name","value":"a"}"#,
    );
    assert_get(b.get_window_rect(), "wd/hub/session/abc/window/rect");
    assert_post(
        b.set_sindow_rect(&WindowRect::new(500, 400, -10, 0)),
        "wd/hub/session/abc/window/rect",
        r#"{"height":500,"width":400,"x":-10,"y":0}"#,
    );
    assert_post(b.maximize_window(), "wd/hub/session/abc/window/maximize", "{}");
    assert_post(b.minimize_window(), "wd/hub/session/abc/window/minimize", "{}");
    assert_post(b.fullscreen(), "wd/hub/session/abc/window/fullscreen", "{}");
    assert_get(b.source(), "wd/hub/session/abc/source");
    assert_get(b.get_all_cookies(), "wd/hub/session/abc/cookie");
    assert_get(b.get_cookie("sid"), "wd/hub/session/abc/cookie/sid");
    assert_post(
        b.add_cookie(Cookie::new("n".to_string(), "v".to_string())),
        "wd/hub/session/abc/cookie",
        r#"{"cookie": {"domain":"","expiry":0,"httpOnly":false,"name":"n","path":"","secure":false,"value":"v","sameSite":"None"} }"#,
    );
    assert_delete(b.delete_cookie("sid"), "wd/hub/session/abc/cookie/sid");
    assert_delete(b.delete_all_cookies(), "wd/hub/session/abc/cookie");
    assert_get(b.take_screenshot(), "wd/hub/session/abc/screenshot");
    let el = element_at("127.0.0.1", "4444", "wd/hub/session/abc", "k".into(), "e1".into());
    assert_get(
        b.take_element_screenshot(&el),
        "wd/hub/session/abc/element/e1/screenshot",
    );
    assert_post(
        b.execute_sync("return 1", &vec!["5", "\"Jack\""]),
        "wd/hub/session/abc/execute/sync",
        r#"{"script":"return 1","args":[5,"Jack"]}"#,
    );
    assert_post(
        b.execute_async("return 1", &vec![]),
        "wd/hub/session/abc/execute/async",
        r#"{"script":"return 1","args":[]}"#,
    );
    assert_post(b.print("{\"scale\":1.0}"), "wd/hub/session/abc/print", "{\"scale\":1.0}");
    assert_post(b.dismiss_alert(), "wd/hub/session/abc/alert/dismiss", "{}");
    assert_post(b.allow_alert(), "wd/hub/session/abc/alert/accept", "{}");
    assert_get(b.get_alert_text(), "wd/hub/session/abc/alert/text");
    assert_post(
        b.send_alert_text("\"hi\""),
        "wd/hub/session/abc/alert/dismiss",
        r#"{"text":"hi"}"#,
    );
    assert_delete(b.release_actions(), "wd/hub/session/abc/actions");
}

#[test]
fn element_requests() {
    let el = element_at("127.0.0.1", "4444", "wd/hub/session/abc", "k".into(), "e1".into());
    assert_eq!(el.ip, "127.0.0.1");
    assert_eq!(el.port, "4444");
    assert_eq!(el.element_gr_id, "k");
    assert_eq!(el.element_id, "e1");
    assert_eq!(el.element_url, "wd/hub/session/abc/element/e1");
    let base = "wd/hub/session/abc/element/e1";
    assert_post(
        el.find_element_from_self(LocatorStrategy::XPATH("//a")),
        &format!("{}/element", base),
        r#"{"using":"xpath","value":"//a"}"#,
    );
    assert_post(
        el.find_elements_from_self(LocatorStrategy::LINKTEXT("x")),
        &format!("{}/elements", base),
        r#"{"using":"link text","value":"x"}"#,
    );
    assert_get(el.is_selected(), &format!("{}/selected", base));
    assert_get(el.get_attribute("href"), &format!("{}/attribute/href", base));
    assert_get(el.get_property("value"), &format!("{}/property/value", base));
    assert_get(el.get_css_value("color"), &format!("{}/css/color", base));
    assert_get(el.get_element_text(), &format!("{}/text", base));
    assert_get(el.get_tag_name(), &format!("{}/name", base));
    assert_get(el.get_element_rect(), &format!("{}/rect", base));
    assert_get(el.is_enabled(), &format!("{}/enabled", base));
    assert_get(el.get_computed_role(), &format!("{}/computedrole", base));
    assert_get(el.get_computed_label(), &format!("{}/computedlabel", base));
    assert_post(el.click(), &format!("{}/click", base), "{}");
    assert_post(el.clear_element(), &format!("{}/clear", base), "{}");
    assert_post(el.send_keys("Sup!"), &format!("{}/value", base), r#"{"text":"Sup!"}"#);
    assert_eq!(el.session_base(), "wd/hub/session/abc");
    let odd = element_at("i", "p", "no-such-part", "k".into(), "e".into());
    assert_eq!(odd.session_base(), "no-such-part");
}

#[test]
fn cookies_and_rectangles() {
    let mut c = Cookie::new("n".to_string(), "v".to_string());
    assert_eq!(c.get_name(), "n");
    assert_eq!(c.get_value(), "v");
    assert_eq!(c.get_domain(), "");
    assert_eq!(c.get_path(), "");
    assert_eq!(c.get_expiry(), 0);
    assert!(!c.get_http_only());
    assert!(!c.get_secure());
    assert_eq!(c.get_same_site(), "None");
    c.set_domain("vk.com".to_string());
    c.set_expiry(1700000000);
    c.set_http_only(true);
    c.set_path("/a\"b".to_string());
    c.set_secure(true);
    c.set_same_site("Lax".to_string());
    assert_eq!(
        c.to_json(),
        r#"{"domain":"vk.com","expiry":1700000000,"httpOnly":true,"name":"n","path":"/a\"b","secure":true,"value":"v","sameSite":"Lax"}"#
    );
    let all = Cookie::new_all(
        "d".to_string(),
        5,
        "Strict".to_string(),
        true,
        "n".to_string(),
        "/".to_string(),
        false,
        "v".to_string(),
    );
    assert_eq!(
        all.to_json(),
        r#"{"domain":"d","expiry":5,"httpOnly":true,"name":"n","path":"/","secure":false,"value":"v","sameSite":"Strict"}"#
    );
    let d = Cookie::default();
    assert_eq!(d.get_name(), "");
    assert_eq!(d.get_same_site(), "None");
    assert_eq!(json_quote("a\"b\\c\n\u{7f}é"), "\"a\\\"b\\\\c\\n\u{7f}é\"");
    assert_eq!(WindowRect::new(1, 2, 3, 4), WindowRect { height: 1, width: 2, x: 3, y: 4 });
    assert_eq!(
        WindowRect::new(i32::MIN, i32::MAX, -1, 0).to_json(),
        r#"{"height":-2147483648,"width":2147483647,"x":-1,"y":0}"#
    );
    assert_eq!(Timeouts::new().to_json(), r#"{"implicit":0,"pageLoad":300000,"script":30000}"#);
    let mut m = Margin::new(1, 2, 3, 4);
    m.set_top(5);
    m.set_bottom(6);
    m.set_left(7);
    m.set_right(8);
    assert_eq!(m, Margin { top: 5, bottom: 6, left: 7, right: 8 });
    assert_eq!(Margin::default(), Margin::new(1, 1, 1, 1));
}

#[test]
fn replies_by_text() {
    assert!(is_error_reply("{\"value\":{\"error\":\"no such window\"}}"));
    assert!(!is_error_reply("{\"value\":null}"));
    assert_eq!(fail_on_error("{\"value\":null}".to_string()), Ok(()));
    assert_eq!(fail_on_error("anything".to_string()), Ok(()));
    assert_eq!(
        fail_on_error("HTTP/1.1 500\r\n\r\n{\"value\":{\"error\":\"x\"}}".to_string()),
        Err("HTTP/1.1 500\r\n\r\n{\"value\":{\"error\":\"x\"}}".to_string())
    );
    assert_eq!(expect_success("{\"value\":null}".to_string()), Ok(()));
    assert_eq!(
        expect_success("{\"value\": null}".to_string()),
        Err("{\"value\": null}".to_string())
    );
    assert_eq!(expect_success(String::new()), Err(String::new()));
    assert_eq!(raw_unless_error("{\"value\":5}".to_string()), Ok("{\"value\":5}".to_string()));
    assert_eq!(raw_unless_error("an error".to_string()), Err("an error".to_string()));
    assert_eq!(raw_unless_error("My Page".to_string()), Ok("My Page".to_string()));
    assert_eq!(property_unless_error("{\"value\":null}".to_string()), Ok("null".to_string()));
    assert_eq!(
        property_unless_error("{\"value\":\"x\"}".to_string()),
        Ok("{\"value\":\"x\"}".to_string())
    );
    assert_eq!(property_unless_error("error".to_string()), Err("error".to_string()));
}

#[test]
fn success_needs_a_body_that_is_the_marker() {
    assert_eq!(confirm_success(Ok("{\"value\":null}".to_string())), Ok(()));
    assert_eq!(
        confirm_success(Ok("{\"value\":1}".to_string())),
        Err(CommandError::Reply("{\"value\":1}".to_string()))
    );
    assert_eq!(
        confirm_success(Ok(String::new())),
        Err(CommandError::Reply(String::new()))
    );
    for e in [
        TransportError::ConnectionError,
        TransportError::DrainTimeout,
        TransportError::MalformedResponse,
        TransportError::EnvelopeNotFound,
        TransportError::Base64DecodeError,
        TransportError::JSONDecodeError,
    ] {
        assert_eq!(confirm_success(Err(e)), Err(CommandError::Transport(e)));
    }
    assert_eq!(
        confirm_success(body_text(b"HTTP/1.1 200 OK\r\n{\"value\":null}")),
        Err(CommandError::Transport(TransportError::MalformedResponse))
    );
    assert_eq!(
        confirm_success(body_text(b"HTTP/1.1 200 OK\r\n\r\n{\"value\":null}")),
        Ok(())
    );
}

#[test]
fn a_plain_text_comes_back_as_it_was_extracted() {
    assert_eq!(text_unless_error(Ok("My Page".to_string())), Ok("My Page".to_string()));
    assert_eq!(
        text_unless_error(extract_text(b"{\"value\":\"My Page\"}")),
        Ok("My Page".to_string())
    );
    assert_eq!(
        text_unless_error(extract_text(b"{\"value\":\"https://vk.com/\"}")),
        Ok("https://vk.com/".to_string())
    );
    assert_eq!(
        text_unless_error(extract_text(b"{\"value\":{\"error\":\"no such window\"}}")),
        Err(CommandError::Reply("{\"error\":\"no such window\"}".to_string()))
    );
    assert_eq!(
        text_unless_error(extract_text(b"{\"value\":")),
        Err(CommandError::Transport(TransportError::JSONDecodeError))
    );
    assert_eq!(
        text_unless_error(Err(TransportError::MalformedResponse)),
        Err(CommandError::Transport(TransportError::MalformedResponse))
    );
}

#[test]
fn replies_by_document() {
    assert_eq!(
        timeouts_from_reply(r#"{"value":{"implicit":0,"pageLoad":300000,"script":30000}}"#.to_string()),
        Ok(Timeouts::new())
    );
    let bad = r#"{"value":{"implicit":0,"pageLoad":-1,"script":30000}}"#.to_string();
    assert_eq!(timeouts_from_reply(bad.clone()), Err(bad));
    let big = r#"{"value":{"implicit":0,"pageLoad":4294967296,"script":30000}}"#.to_string();
    assert_eq!(timeouts_from_reply(big.clone()), Err(big));
    let err = r#"{"value":{"error":"x","implicit":0,"pageLoad":1,"script":2}}"#.to_string();
    assert_eq!(timeouts_from_reply(err.clone()), Err(err));
    assert_eq!(timeouts_from_reply("{".to_string()), Err("{".to_string()));
    assert_eq!(
        handles_from_reply(r#"{"value":["a","b"]}"#.to_string()),
        Ok(vec!["a".to_string(), "b".to_string()])
    );
    assert_eq!(handles_from_reply(r#"{"value":[]}"#.to_string()), Ok(vec![]));
    assert_eq!(
        handles_from_reply(r#"{"value":["a",1]}"#.to_string()),
        Err(r#"{"value":["a",1]}"#.to_string())
    );
    assert_eq!(
        window_from_reply(r#"{"value":{"handle":"h1","type":"tab"}}"#.to_string()),
        Ok(("h1".to_string(), "tab".to_string()))
    );
    assert_eq!(
        window_from_reply(r#"{"value":{"handle":"h1"}}"#.to_string()),
        Err(r#"{"value":{"handle":"h1"}}"#.to_string())
    );
    assert_eq!(
        window_rect_from_reply(r#"{"value":{"height":600,"width":800,"x":-8,"y":0}}"#.to_string()),
        Ok(WindowRect::new(600, 800, -8, 0))
    );
    assert_eq!(
        window_rect_from_reply(r#"{"value":{"height":600.5,"width":800,"x":0,"y":0}}"#.to_string()),
        Err(r#"{"value":{"height":600.5,"width":800,"x":0,"y":0}}"#.to_string())
    );
    assert_eq!(
        string_from_reply(r#"{"value":"<html>\n</html>"}"#.to_string()),
        Ok("<html>\n</html>".to_string())
    );
    assert_eq!(
        string_from_reply(r#"{"value":5}"#.to_string()),
        Err(r#"{"value":5}"#.to_string())
    );
    assert_eq!(attribute_from_reply("{\"value\":null}".to_string()), Ok("null".to_string()));
    assert_eq!(attribute_from_reply(r#"{"value":"x"}"#.to_string()), Ok("x".to_string()));
    assert_eq!(
        attribute_from_reply(r#"{"value":{"error":"x"}}"#.to_string()),
        Err(r#"{"value":{"error":"x"}}"#.to_string())
    );
    assert_eq!(bool_from_reply(r#"{"value":true}"#.to_string()), Ok(true));
    assert_eq!(bool_from_reply(r#"{"value":false}"#.to_string()), Ok(false));
    assert_eq!(
        bool_from_reply(r#"{"value":"true"}"#.to_string()),
        Err(r#"{"value":"true"}"#.to_string())
    );
}

#[test]
fn session_replies() {
    let reply = r#"{"value":{"sessionId":"0123456789abcdef0123456789abcdef","capabilities":{}}}"#;
    let b = session_from_reply("10.1.1.1", "4444", reply.to_string()).unwrap();
    assert_eq!(b.ip, "10.1.1.1");
    assert_eq!(b.port, "4444");
    assert_eq!(b.session_url, "wd/hub/session/0123456789abcdef0123456789abcdef");
    assert_eq!(b.print_page_url, "wd/hub/session/0123456789abcdef0123456789abcdef/print");
    assert_eq!(
        session_from_reply("i", "p", r#"{"value":{"sessionId":5}}"#.to_string()).err(),
        Some(r#"{"value":{"sessionId":5}}"#.to_string())
    );
    assert_eq!(
        session_from_reply("i", "p", r#"{"sessionId":"x"}"#.to_string()).err(),
        Some(r#"{"sessionId":"x"}"#.to_string())
    );
    assert_eq!(session_from_reply("i", "p", "".to_string()).err(), Some(String::new()));
    let with_error = r#"{"value":{"sessionId":"s","note":"no error"}}"#;
    assert!(session_from_reply("i", "p", with_error.to_string()).is_ok());
    assert_eq!(
        session_unless_error("i", "p", with_error.to_string()).err(),
        Some(with_error.to_string())
    );
    assert!(session_unless_error("i", "p", reply.to_string()).is_ok());
}

#[test]
fn closing_a_session() {
    let mut b = session();
    assert_eq!(
        b.finish_close("{\"value\":{\"error\":\"x\"}}".to_string()),
        Err("{\"value\":{\"error\":\"x\"}}".to_string())
    );
    assert_eq!(b.session_url, "wd/hub/session/abc");
    assert_eq!(b.finish_close("{\"value\":null}".to_string()), Ok(()));
    assert_eq!(b.session_url, "");
    assert_eq!(b.go_to_url, "wd/hub/session/abc/url");
}

#[test]
fn element_replies() {
    let b = session();
    let reply = r#"{"value":{"element-6066-11e4-a52e-4f735466cecf":"e-1"}}"#;
    let el = b.element_from_reply(reply.to_string()).unwrap();
    assert_eq!(el.ip, "127.0.0.1");
    assert_eq!(el.port, "4444");
    assert_eq!(el.element_gr_id, "element-6066-11e4-a52e-4f735466cecf");
    assert_eq!(el.element_id, "e-1");
    assert_eq!(el.element_url, "wd/hub/session/abc/element/e-1");
    let child = el
        .element_from_reply(r#"{"value":{"element-6066":"e-2"}}"#.to_string())
        .unwrap();
    assert_eq!(child.element_url, "wd/hub/session/abc/element/e-2");
    assert_eq!(child.ip, "127.0.0.1");
    let list = b
        .elements_from_reply(r#"{"value":[{"k":"e-1"},{"k":"e-2"},{"k":"e-3"}]}"#.to_string())
        .unwrap();
    assert_eq!(list.len(), 3);
    assert_eq!(list[0].element_id, "e-1");
    assert_eq!(list[2].element_url, "wd/hub/session/abc/element/e-3");
    let children = el
        .elements_from_reply(r#"{"value":[{"k":"e-4"}]}"#.to_string())
        .unwrap();
    assert_eq!(children[0].element_url, "wd/hub/session/abc/element/e-4");
    assert_eq!(b.elements_from_reply(r#"{"value":[]}"#.to_string()).unwrap().len(), 0);
    for bad in [
        r#"{"value":{}}"#,
        r#"{"value":{"k":1}}"#,
        r#"{"value":{"k":"e","n":2}}"#,
        r#"{"value":"e"}"#,
        r#"{"value":{"error":"no such element"}}"#,
        r#"{"k":"e"}"#,
        "",
    ] {
        assert_eq!(b.element_from_reply(bad.to_string()).err(), Some(bad.to_string()));
        assert_eq!(
            element_of_reply("i", "p", "b", bad.to_string()).err(),
            Some(bad.to_string())
        );
    }
    for bad in [r#"{"value":{"k":"e"}}"#, r#"{"value":[{"k":"e"},{}]}"#, r#"{"value":[1]}"#] {
        assert_eq!(b.elements_from_reply(bad.to_string()).err(), Some(bad.to_string()));
        assert_eq!(
            elements_of_reply("i", "p", "b", bad.to_string()).err(),
            Some(bad.to_string())
        );
    }
}

#[test]
fn cookie_replies() {
    let one = r#"{"value":{"domain":"vk.com","expiry":1700000000,"httpOnly":true,"name":"sid","path":"/","secure":true,"value":"42","sameSite":"Lax"}}"#;
    let c = cookie_from_reply(one.to_string()).unwrap();
    assert_eq!(c.get_domain(), "vk.com");
    assert_eq!(c.get_expiry(), 1700000000);
    assert!(c.get_http_only());
    assert_eq!(c.get_name(), "sid");
    assert_eq!(c.get_path(), "/");
    assert!(c.get_secure());
    assert_eq!(c.get_value(), "42");
    assert_eq!(c.get_same_site(), "Lax");
    let plain = r#"{"value":{"name":"sid","value":"42"}}"#;
    assert_eq!(cookie_from_reply(plain.to_string()).err(), Some(plain.to_string()));
    let nameless = r#"{"value":{"domain":"d","expiry":1,"name":5,"value":"42"}}"#;
    assert_eq!(cookie_from_reply(nameless.to_string()).err(), Some(nameless.to_string()));
    let list = cookies_from_reply(format!("{{\"value\":[{},{}]}}", &one[9..one.len() - 1], r#"{"name":"b","value":"c"}"#)).unwrap();
    assert_eq!(list.len(), 2);
    assert_eq!(list[0].get_name(), "sid");
    assert_eq!(list[1].get_name(), "b");
    assert_eq!(list[1].get_same_site(), "");
    assert_eq!(list[1].get_expiry(), 0);
    let bad = r#"{"value":[{"name":"b"}]}"#;
    assert_eq!(cookies_from_reply(bad.to_string()).err(), Some(bad.to_string()));
}

#[test]
fn decoders_on_documents() {
    assert_eq!(session_id_in(&doc(r#"{"value":{"sessionId":"s"}}"#)), Some("s".to_string()));
    assert_eq!(session_id_in(&doc(r#"{"value":"s"}"#)), None);
    assert_eq!(string_value_in(&doc(r#"{"value":"s"}"#)), Some("s".to_string()));
    assert_eq!(string_value_in(&doc(r#"{"value":null}"#)), None);
    assert_eq!(string_value_in(&doc(r#"["value"]"#)), None);
    assert_eq!(bool_value_in(&doc(r#"{"value":true}"#)), Some(true));
    assert_eq!(bool_value_in(&doc(r#"{"value":1}"#)), None);
    assert_eq!(
        string_list_in(&doc(r#"["a","b"]"#)),
        Some(vec!["a".to_string(), "b".to_string()])
    );
    assert_eq!(string_list_in(&doc(r#"["a",null]"#)), None);
    assert_eq!(string_list_in(&doc(r#"{"a":"b"}"#)), None);
    assert_eq!(
        window_pair_in(&doc(r#"{"type":"window","handle":"h"}"#)),
        Some(("h".to_string(), "window".to_string()))
    );
    assert_eq!(window_pair_in(&doc(r#"{"type":"window"}"#)), None);
    assert_eq!(
        timeouts_in(&doc(r#"{"implicit":1,"pageLoad":2,"script":4294967295,"more":0}"#)),
        Some(Timeouts::set_all(1, 2, 4294967295))
    );
    assert_eq!(timeouts_in(&doc(r#"{"implicit":1,"pageLoad":2}"#)), None);
    assert_eq!(timeouts_in(&doc(r#"{"implicit":1.0,"pageLoad":2,"script":3}"#)), None);
    assert_eq!(
        window_rect_in(&doc(r#"{"height":-2147483648,"width":2147483647,"x":0,"y":1}"#)),
        Some(WindowRect::new(i32::MIN, i32::MAX, 0, 1))
    );
    assert_eq!(
        window_rect_in(&doc(r#"{"height":2147483648,"width":1,"x":0,"y":1}"#)),
        None
    );
    assert_eq!(
        window_rect_in(&doc(r#"{"height":18446744073709551615,"width":1,"x":0,"y":1}"#)),
        None
    );
    assert_eq!(
        element_ids_in(&doc(r#"{"k":"e"}"#)),
        Some(("k".to_string(), "e".to_string()))
    );
    assert_eq!(element_ids_in(&doc(r#"{}"#)), None);
    assert_eq!(element_ids_in(&doc(r#"[]"#)), None);
    assert_eq!(
        element_ids_list_in(&doc(r#"[{"k":"e"},{"l":"f"}]"#)),
        Some(vec![("k".to_string(), "e".to_string()), ("l".to_string(), "f".to_string())])
    );
    assert_eq!(element_ids_list_in(&doc(r#"[{"k":"e"},{"l":1}]"#)), None);
    let c = from_value_to_cookie(&doc(r#"{"name":"n","value":"v","expiry":-1,"secure":"yes"}"#)).unwrap();
    assert_eq!(c.get_name(), "n");
    assert_eq!(c.get_expiry(), 0);
    assert!(!c.get_secure());
    assert_eq!(c.get_domain(), "");
    assert!(from_value_to_cookie(&doc(r#"{"name":"n"}"#)).is_none());
    assert!(from_value_to_cookie(&doc(r#"{"value":"v"}"#)).is_none());
    assert!(from_value_to_cookie(&doc(r#""name""#)).is_none());
    assert_eq!(cookies_in(&doc("[]")).map(|l| l.len()), Some(0));
    assert!(cookies_in(&doc("{}")).is_none());
    assert_eq!(parse_reply("{\"a\":1}"), Some(doc("{\"a\":1}")));
    assert_eq!(parse_reply("{\"a\":1"), None);
}

#[test]
fn special_keys_and_buttons() {
    assert_eq!(spec_key_to_string(SpecialKey::ShiftLeft), "\\uE008");
    assert_eq!(spec_key_to_string(SpecialKey::Enter), "\\uE006");
    assert_eq!(spec_key_to_string(SpecialKey::Return), "\\uE006");
    assert_eq!(spec_key_to_string(SpecialKey::F12), "\\uE03C");
    assert_eq!(spec_key_to_string(SpecialKey::AltRight), "AltRight");
    assert_eq!(spec_key_to_string(SpecialKey::NumpadSubtract), "\\uE027");
    assert_eq!(spec_key_to_string(SpecialKey::Numpad5), "\\uE01F");
    assert_eq!(mouse_button_to_string(MouseButton::Left), 0);
    assert_eq!(mouse_button_to_string(MouseButton::Middle), 1);
    assert_eq!(mouse_button_to_string(MouseButton::Right), 2);
    assert_eq!(mouse_button_to_string(MouseButton::X1Back), 3);
    assert_eq!(mouse_button_to_string(MouseButton::X2Forward), 4);
}

#[test]
fn key_mouse_and_wheel_actions() {
    let mut keys = ActionsKeys::new();
    keys.press_special_key(SpecialKey::ShiftLeft)
        .press_key("a")
        .release_key("a")
        .release_special_key(SpecialKey::ShiftLeft)
        .pause(15);
    assert_eq!(
        keys.actions,
        vec![
            doc("{\"type\":\"keyDown\",\"value\":\"\u{e008}\"}"),
            doc(r#"{"type":"keyDown","value":"a"}"#),
            doc(r#"{"type":"keyUp","value":"a"}"#),
            doc("{\"type\":\"keyUp\",\"value\":\"\u{e008}\"}"),
            doc(r#"{"type":"pause","duration":15}"#),
        ]
    );
    let mut mouse = ActionsMouse::new();
    mouse
        .move_mouse_to_point(-3, 40)
        .press_mouse_button(MouseButton::Left)
        .pause(0)
        .release_mouse_button(MouseButton::X2Forward)
        .cancel_action();
    assert_eq!(
        mouse.actions,
        vec![
            doc(r#"{"type":"pointerMove","duration":0,"origin":"viewport","x":-3,"y":40}"#),
            doc(r#"{"type":"pointerDown","button":0}"#),
            doc(r#"{"type":"pause","duration":0}"#),
            doc(r#"{"type":"pointerUp","button":4}"#),
            doc(r#"{"type":"pointerCancel"}"#),
        ]
    );
    let mut wheel = ActionsWheel::new();
    wheel.scroll(0, 0, 100, -100).pause(7);
    assert_eq!(
        wheel.actions,
        vec![
            doc(r#"{"type":"scroll","x":0,"y":0,"deltaX":100,"deltaY":-100}"#),
            doc(r#"{"type":"pause","duration":7}"#),
        ]
    );
}

#[test]
fn a_key_that_breaks_the_text_adds_nothing() {
    let mut keys = ActionsKeys::new();
    keys.press_key("\"").release_key("\\").press_key("b");
    assert_eq!(keys.actions, vec![doc(r#"{"type":"keyDown","value":"b"}"#)]);
}

#[test]
fn performing_actions() {
    let mut keys = ActionsKeys::new();
    keys.press_key("a");
    let mut mouse = ActionsMouse::new();
    mouse.pause(1);
    let mut wheel = ActionsWheel::new();
    wheel.pause(2);
    let mut actions = Actions::new();
    actions.add_key_actions(keys).add_mouse_actions(mouse).add_wheel_actions(wheel);
    assert_eq!(
        actions.to_json(),
        r#"{"actions":[{"actions":[{"type":"keyDown","value":"a"}],"type":"key"},{"actions":[{"duration":1,"type":"pause"}],"type":"pointer"},{"actions":[{"duration":2,"type":"pause"}],"type":"wheel"}]}"#
    );
    let b = session();
    assert_post(
        b.perform_actions(actions),
        "wd/hub/session/abc/actions",
        r#"{"actions":[{"actions":[{"type":"keyDown","value":"a"}],"id":"1","type":"key"},{"actions":[{"duration":1,"type":"pause"}],"id":"2","type":"pointer"},{"actions":[{"duration":2,"type":"pause"}],"id":"3","type":"wheel"}]}"#,
    );
    let mut none = Actions::new();
    none.set_ids();
    assert_eq!(none.to_json(), r#"{"actions":[]}"#);
}

#[test]
fn a_source_that_takes_no_id_stays_as_it_is() {
    let mut actions = Actions::new();
    actions.actions.push(serde_json::Value::Null);
    actions.actions.push(doc(r#"{"type":"none"}"#));
    actions.actions.push(doc(r#"[1]"#));
    actions.set_ids();
    assert_eq!(
        actions.to_json(),
        r#"{"actions":[null,{"id":"2","type":"none"},[1]]}"#
    );
}
