use selenium_webdriver::cycle::{conclude, extract};
use selenium_webdriver::envelope::{
    decode_payload, envelope_value_text, extract_binary, extract_text, is_success_marker,
    locate_payload, SCAN_WINDOW, TRAILER_LEN,
};
use selenium_webdriver::frame::{body_text, split_metadata_and_body};
use selenium_webdriver::reply::{expect_success, raw_unless_error};
use selenium_webdriver::reqs::{
    body_for_find_element, cont_length_header, create_remote_req, create_req, parse_value,
    resp_body,
};
use selenium_webdriver::length::{content_length, is_length_complete};
use selenium_webdriver::{
    CompletionStrategy, Cycle, CycleState, DrainAction, DrainPolicy, DrainStatus, EnvelopePayload, Expectation,
    LocatorStrategy, Method, ResponseDrainer, TransportError, WireRequest,
};

#[test]
fn resp_body_extraction() {
    let response = "I am the metadata\r\n\r\n{\"hi\":\"there\"}".to_string();
    assert_eq!(
        "{\"hi\":\"there\"}".to_string(),
        resp_body(response).unwrap()
    );
}

#[test]
fn delete_req_creation() {
    let del_req =
        "DELETE /hello/you HTTP/1.1\r\nHost: 127.0.0.1\r\nContent-Length: 130\r\n\r\n\r\n"
            .to_string();
    assert_eq!(
        del_req,
        create_req(
            Method::DELETE,
            "hello/you",
            vec!["Content-Length: 130".to_string()],
            "{dsd}"
        )
    );
}

#[test]
fn get_req_creation() {
    let del_req =
        "GET /hello/you HTTP/1.1\r\nHost: 127.0.0.1\r\nContent-Length: 130\r\n\r\n\r\n".to_string();
    assert_eq!(
        del_req,
        create_req(
            Method::GET,
            "hello/you",
            vec!["Content-Length: 130".to_string()],
            "{dsd}"
        )
    );
}

#[test]
fn post_req_ends_with_its_body() {
    let bodies = vec!["", "{dsd}", "\r\n\r\n", "GET / HTTP/1.1", "{\"url\":\"https://vk.com\"}", "żółć"];
    for body in bodies {
        let req = create_req(Method::POST, "p", cont_length_header(body), body);
        assert!(req.ends_with(body));
        assert!(req.as_bytes().ends_with(body.as_bytes()));
        let head = create_req(Method::GET, "p", cont_length_header(body), body);
        assert_eq!(req, format!("POST{}{}", &head[3..], body));
    }
    assert_eq!(
        create_req(Method::POST, "hello/you", vec!["A: b".to_string(), "C: d".to_string()], "{dsd}"),
        "POST /hello/you HTTP/1.1\r\nHost: 127.0.0.1\r\nA: b\r\nC: d\r\n\r\n\r\n{dsd}"
    );
}

#[test]
fn bodiless_req_is_the_same_whatever_the_body() {
    for method in [Method::GET, Method::DELETE] {
        let with = create_req(method, "x/y", vec![], "{\"secret\":1}");
        let without = create_req(method, "x/y", vec![], "");
        assert_eq!(with, without);
        assert!(!with.contains("{\"secret\":1}"));
        assert!(with.ends_with("\r\n\r\n"));
    }
    assert_eq!(
        create_req(Method::GET, "", vec![], "body"),
        "GET / HTTP/1.1\r\nHost: 127.0.0.1\r\n\r\n\r\n"
    );
}

#[test]
fn remote_req_names_its_host() {
    assert_eq!(
        create_remote_req("10.0.0.7", Method::POST, "wd/hub/session", vec!["Content-Length:4".to_string()], "{}"),
        "POST /wd/hub/session HTTP/1.1\r\nHost: 10.0.0.7\r\nContent-Length:4\r\n\r\n\r\n{}"
    );
    assert_eq!(
        create_remote_req("h", Method::DELETE, "p", vec![], "{}"),
        "DELETE /p HTTP/1.1\r\nHost: h\r\n\r\n\r\n"
    );
}

#[test]
fn length_header_declares_two_more_than_the_body_has() {
    assert_eq!(cont_length_header("{dsd}"), vec!["Content-Length:7".to_string()]);
    assert_eq!(cont_length_header(""), vec!["Content-Length:2".to_string()]);
    assert_eq!(cont_length_header("żółć"), vec!["Content-Length:10".to_string()]);
    let long = "x".repeat(12345);
    assert_eq!(cont_length_header(&long), vec!["Content-Length:12347".to_string()]);
}

#[test]
fn wire_request_follows_the_conventions() {
    let post = WireRequest::post("a/b", "{\"k\":1}");
    assert_eq!(post.method, Method::POST);
    assert_eq!(post.path, "a/b");
    assert_eq!(post.headers, vec!["Content-Length:9".to_string()]);
    assert_eq!(post.body, "{\"k\":1}");
    assert_eq!(
        post.to_wire(),
        "POST /a/b HTTP/1.1\r\nHost: 127.0.0.1\r\nContent-Length:9\r\n\r\n\r\n{\"k\":1}"
    );
    let get = WireRequest::get("a/b");
    assert_eq!(get.method, Method::GET);
    assert!(get.headers.is_empty());
    assert_eq!(get.body, "");
    assert_eq!(get.to_wire(), "GET /a/b HTTP/1.1\r\nHost: 127.0.0.1\r\n\r\n\r\n");
    let delete = WireRequest::delete("a/b");
    assert_eq!(delete.method, Method::DELETE);
    assert_eq!(delete.to_wire(), "DELETE /a/b HTTP/1.1\r\nHost: 127.0.0.1\r\n\r\n\r\n");
}

#[test]
fn find_element_bodies() {
    assert_eq!(
        body_for_find_element(LocatorStrategy::CSS("#ts_input")),
        r##"{"using":"css selector","value":"#ts_input"}"##
    );
    assert_eq!(
        body_for_find_element(LocatorStrategy::LINKTEXT("a")),
        r#"{"using":"link text","value":"a"}"#
    );
    assert_eq!(
        body_for_find_element(LocatorStrategy::PARTLINKTEXT("a")),
        r#"{"using":"partial link text","value":"a"}"#
    );
    assert_eq!(
        body_for_find_element(LocatorStrategy::TAGNAME("div")),
        r#"{"using":"tag name","value":"div"}"#
    );
    assert_eq!(
        body_for_find_element(LocatorStrategy::XPATH("//a")),
        r#"{"using":"xpath","value":"//a"}"#
    );
}

#[test]
fn resp_body_takes_everything_after_the_first_blank_line() {
    assert_eq!(
        resp_body("a\r\n\r\nb\r\n\r\nc".to_string()),
        Ok("b\r\n\r\nc".to_string())
    );
    assert_eq!(resp_body("a\r\n\r\n".to_string()), Ok(String::new()));
    assert_eq!(resp_body("\r\n\r\nżó".to_string()), Ok("żó".to_string()));
    assert_eq!(
        resp_body("no blank line\r\n".to_string()),
        Err("Can't get the response body")
    );
    assert_eq!(resp_body(String::new()), Err("Can't get the response body"));
}

#[test]
fn browser_parse_val_test() {
    let resp = r#"{
       "value": {
       "dftg43rert34tert-34trte-243f-4":
       {
        "id": 333
        }
      }
     }"#;
    let res = parse_value(resp).unwrap();
    assert_eq!(res, "{\"dftg43rert34tert-34trte-243f-4\":{\"id\":333}}");
}

#[test]
fn parse_value_by_the_parsed_document() {
    assert_eq!(
        parse_value("{\"value\":\"https://vk.com/\"}"),
        Ok("https://vk.com/".to_string())
    );
    assert_eq!(parse_value("{\"value\":\"My Page\"}"), Ok("My Page".to_string()));
    assert_eq!(parse_value("{\"value\":null}"), Ok("null".to_string()));
    assert_eq!(
        parse_value("{\"value\": [\"a b\",\n\"c\"]}"),
        Ok("[\"a b\",\"c\"]".to_string())
    );
    assert_eq!(
        parse_value("{\"value\":{\"value\":1}}"),
        Ok("{\"value\":1}".to_string())
    );
    assert_eq!(parse_value(""), Err(TransportError::JSONDecodeError));
    assert_eq!(parse_value("x"), Err(TransportError::JSONDecodeError));
    assert_eq!(parse_value("{}"), Err(TransportError::EnvelopeNotFound));
}

#[test]
fn body_text_of_a_drained_response() {
    assert_eq!(
        body_text(b"HTTP/1.1 200 OK\r\n\r\n{\"value\":null}"),
        Ok("{\"value\":null}".to_string())
    );
    assert_eq!(body_text(b"m\r\n\r\n"), Ok(String::new()));
    assert_eq!(
        body_text(b"m\r\n\r\n\xc5\xbc\r\n\r\nx"),
        Ok("\u{17c}\r\n\r\nx".to_string())
    );
    assert_eq!(
        body_text(b"HTTP/1.1 200 OK\r\n{\"value\":null}"),
        Err(TransportError::MalformedResponse)
    );
    assert_eq!(body_text(b""), Err(TransportError::MalformedResponse));
    assert_eq!(body_text(b"m\r\n\r\n\xff"), Err(TransportError::JSONDecodeError));
}

#[test]
fn a_reply_without_a_body_is_no_success() {
    assert_eq!(
        body_text(b"HTTP/1.1 200 OK\r\n").map(expect_success),
        Err(TransportError::MalformedResponse)
    );
    assert_eq!(
        body_text(b"HTTP/1.1 200 OK\r\n\r\n{\"value\":null}").map(expect_success),
        Ok(Ok(()))
    );
    assert_eq!(
        body_text(b"HTTP/1.1 200 OK\r\n\r\n").map(expect_success),
        Ok(Err(String::new()))
    );
}

#[test]
fn a_title_keeps_its_blanks() {
    let raw = b"HTTP/1.1 200 OK\r\n\r\n{\"value\":\"My Page\"}";
    let text = match conclude(Expectation::Text, raw) {
        Ok(EnvelopePayload::Text(text)) => text,
        other => panic!("{:?}", other),
    };
    assert_eq!(raw_unless_error(text), Ok("My Page".to_string()));
    let failed = b"\r\n\r\n{\"value\":{\"error\":\"no such window\"}}";
    let text = match conclude(Expectation::Text, failed) {
        Ok(EnvelopePayload::Text(text)) => text,
        other => panic!("{:?}", other),
    };
    assert_eq!(
        raw_unless_error(text),
        Err("{\"error\":\"no such window\"}".to_string())
    );
}

#[test]
fn split_recovers_metadata_and_body() {
    let cases: Vec<(&[u8], &[u8])> = vec![
        (b"HTTP/1.1 200 OK\r\nContent-Type: application/json", b"{\"value\":null}"),
        (b"", b""),
        (b"m", b"\r\n\r\n"),
        (b"m\r", b"body with \r\n\r\n inside \r\n\r\n twice"),
        (b"m\r\n\r", b"\xff\xfe\x00binary"),
    ];
    for (metadata, body) in cases {
        let mut raw = metadata.to_vec();
        raw.extend_from_slice(b"\r\n\r\n");
        raw.extend_from_slice(body);
        let framed = split_metadata_and_body(&raw).unwrap();
        assert_eq!(framed.metadata, metadata);
        assert_eq!(framed.body, body);
    }
}

#[test]
fn split_takes_the_first_separator_when_the_metadata_ends_a_line() {
    let framed = split_metadata_and_body(b"m\r\n\r\n\r\nbody").unwrap();
    assert_eq!(framed.metadata, b"m");
    assert_eq!(framed.body, b"\r\nbody");
}

#[test]
fn split_without_separator_is_malformed() {
    let inputs: Vec<&[u8]> = vec![b"", b"\r\n", b"\r\n\r", b"HTTP/1.1 200 OK\r\n{\"value\":null}", b"\n\r\n\r", b"\r\n \r\n"];
    for raw in inputs {
        assert_eq!(
            split_metadata_and_body(raw).err(),
            Some(TransportError::MalformedResponse)
        );
    }
}

#[test]
fn metadata_text_of_a_framed_response() {
    let framed = split_metadata_and_body(b"HTTP/1.1 200 OK\r\nServer: \xc5\xbc\r\n\r\n{}").unwrap();
    assert_eq!(framed.metadata_text(), "HTTP/1.1 200 OK\r\nServer: ż");
    assert_eq!(framed.body, b"{}");
    let odd = split_metadata_and_body(b"\xff\r\n\r\n").unwrap();
    assert_eq!(odd.metadata, b"\xff");
    assert_eq!(odd.metadata_text(), "\u{fffd}");
}

#[test]
fn text_path_unquotes_a_string() {
    assert_eq!(
        extract_text(b"{\"value\":\"https://vk.com/\"}"),
        Ok("https://vk.com/".to_string())
    );
    assert_eq!(
        extract_text(b" { \"sessionId\" : 1 , \"value\" : \"a\\\"b\\u00e9\" } \n"),
        Ok("a\"bé".to_string())
    );
    assert_eq!(extract_text(b"{\"value\":\"\"}"), Ok(String::new()));
}

#[test]
fn text_path_prints_anything_else_compactly() {
    assert_eq!(extract_text(b"{\"value\":null}"), Ok("null".to_string()));
    assert_eq!(extract_text(b"{\"value\": true}"), Ok("true".to_string()));
    assert_eq!(extract_text(b"{\"value\": 300000}"), Ok("300000".to_string()));
    assert_eq!(extract_text(b"{\"value\": -7}"), Ok("-7".to_string()));
    assert_eq!(extract_text(b"{\"value\": 1.5}"), Ok("1.5".to_string()));
    assert_eq!(
        extract_text(b"{\"value\": [ \"a\", 1, null ]}"),
        Ok("[\"a\",1,null]".to_string())
    );
    assert_eq!(
        extract_text(b"{\"value\": {\"b\": 1, \"a\": [true, null]}}"),
        Ok("{\"a\":[true,null],\"b\":1}".to_string())
    );
}

#[test]
fn text_path_failures() {
    assert_eq!(extract_text(b""), Err(TransportError::JSONDecodeError));
    assert_eq!(extract_text(b"{\"value\":"), Err(TransportError::JSONDecodeError));
    assert_eq!(extract_text(b"{\"value\":1} x"), Err(TransportError::JSONDecodeError));
    assert_eq!(extract_text(b"{}"), Err(TransportError::EnvelopeNotFound));
    assert_eq!(extract_text(b"{\"Value\":1}"), Err(TransportError::EnvelopeNotFound));
    assert_eq!(extract_text(b"{\"a\":{\"value\":1}}"), Err(TransportError::EnvelopeNotFound));
    assert_eq!(extract_text(b"[1,2]"), Err(TransportError::EnvelopeNotFound));
    assert_eq!(extract_text(b"\"value\""), Err(TransportError::EnvelopeNotFound));
}

#[test]
fn text_path_on_a_parsed_document() {
    let doc: serde_json::Value = serde_json::from_str("{\"value\":{\"x\":\"y\"}}").unwrap();
    assert_eq!(envelope_value_text(&doc), Ok("{\"x\":\"y\"}".to_string()));
    let text = serde_json::Value::String("value".to_string());
    assert_eq!(envelope_value_text(&text), Err(TransportError::EnvelopeNotFound));
    let mut map = serde_json::Map::new();
    map.insert("value".to_string(), serde_json::Value::String("q\"".to_string()));
    assert_eq!(
        envelope_value_text(&serde_json::Value::Object(map)),
        Ok("q\"".to_string())
    );
}

#[test]
fn binary_path_decodes_what_lies_before_the_two_last_bytes() {
    assert_eq!(
        extract_binary(b"{\"value\":\"aGVsbG8gd29ybGQ=\"}"),
        Ok(b"hello world".to_vec())
    );
    assert_eq!(extract_binary(b"{\"value\":\"/9j/\"}"), Ok(vec![0xff, 0xd8, 0xff]));
    assert_eq!(extract_binary(b"{\"value\":\"\"}"), Ok(vec![]));
    assert_eq!(extract_binary(b"{\"value\":\"QUJDxy"), Ok(b"ABC".to_vec()));
    assert_eq!(
        extract_binary(b"HTTP stuff {\"value\":\"QUJD\"}"),
        Ok(b"ABC".to_vec())
    );
}

#[test]
fn binary_path_round_trip() {
    let payloads = vec!["", "QQ==", "QUI=", "QUJD", "aGVsbG8gd29ybGQ=", "/9j/4AAQSkZJRgABAQ=="];
    for payload in payloads {
        let body = format!("{{\"value\":\"{}\"}}", payload);
        let artifact = extract_binary(body.as_bytes()).unwrap();
        assert_eq!(base64::encode(&artifact), payload);
    }
}

#[test]
fn binary_path_keeps_the_two_byte_trim() {
    assert_eq!(TRAILER_LEN, 2);
    assert_eq!(locate_payload(b"{\"value\":\"QUJD\"}"), Ok((10, 14)));
    assert_eq!(
        extract_binary(b"{\"value\":\"QUJD\"}\r\n"),
        Err(TransportError::Base64DecodeError)
    );
    assert_eq!(
        extract_binary(b"{\"value\":\"QUJD\""),
        Err(TransportError::Base64DecodeError)
    );
}

#[test]
fn binary_path_scans_a_window() {
    assert_eq!(SCAN_WINDOW, 400);
    let mut at_edge = vec![b' '; 399];
    at_edge.extend_from_slice(b"{\"value\":\"QUJD\"}");
    assert_eq!(locate_payload(&at_edge), Ok((409, 413)));
    assert_eq!(extract_binary(&at_edge), Ok(b"ABC".to_vec()));
    let mut beyond = vec![b' '; 400];
    beyond.extend_from_slice(b"{\"value\":\"QUJD\"}");
    assert_eq!(locate_payload(&beyond), Err(TransportError::EnvelopeNotFound));
    assert_eq!(extract_binary(&beyond), Err(TransportError::EnvelopeNotFound));
}

#[test]
fn binary_path_failures() {
    assert_eq!(extract_binary(b""), Err(TransportError::EnvelopeNotFound));
    assert_eq!(extract_binary(b"{\"value\":null}"), Err(TransportError::EnvelopeNotFound));
    assert_eq!(extract_binary(b"{\"value\": \"QUJD\"}"), Err(TransportError::EnvelopeNotFound));
    assert_eq!(extract_binary(b"{\"value\":\""), Err(TransportError::EnvelopeNotFound));
    assert_eq!(extract_binary(b"{\"value\":\"\""), Err(TransportError::EnvelopeNotFound));
    assert_eq!(extract_binary(b"{\"value\":\"QUJD*\"}"), Err(TransportError::Base64DecodeError));
    assert_eq!(extract_binary(b"{\"value\":\"QUJ\"}"), Err(TransportError::Base64DecodeError));
    assert_eq!(extract_binary(b"{\"value\":\"Q\"}"), Err(TransportError::Base64DecodeError));
    assert_eq!(decode_payload(b"QUJD"), Ok(b"ABC".to_vec()));
    assert_eq!(decode_payload(b"QQ"), Ok(b"A".to_vec()));
    assert_eq!(decode_payload(b"Q=="), Err(TransportError::Base64DecodeError));
    assert_eq!(decode_payload(b" QUJD"), Err(TransportError::Base64DecodeError));
}

#[test]
fn success_marker_is_exact() {
    assert!(is_success_marker("{\"value\":null}"));
    assert!(!is_success_marker("{\"value\": null}"));
    assert!(!is_success_marker("{\"value\":null}\n"));
    assert!(!is_success_marker("{\"value\":\"null\"}"));
    assert!(!is_success_marker(""));
}

fn policy(threshold: u32, max_polls: u64) -> DrainPolicy {
    DrainPolicy {
        strategy: CompletionStrategy::Quiescence,
        quiescence_threshold: threshold,
        poll_interval_ms: 10,
        max_polls,
    }
}

#[test]
fn standard_policy() {
    assert_eq!(DrainPolicy::standard(), policy(3, 3000));
}

#[test]
fn drain_completes_on_quiescence_after_any_number_of_chunks() {
    for n in 1usize..=40 {
        for threshold in 1u32..=4 {
            let mut drainer = ResponseDrainer::new(policy(threshold, 100));
            let mut expected: Vec<u8> = Vec::new();
            for i in 0..n {
                let chunk = vec![i as u8; (i % 3) + 1];
                assert_eq!(drainer.step(&chunk), DrainAction::Poll);
                expected.extend_from_slice(&chunk);
            }
            for quiet in 1..=threshold {
                assert_eq!(drainer.status(), DrainStatus::Draining);
                let action = drainer.step(b"");
                if quiet < threshold {
                    assert_eq!(action, DrainAction::Wait(10));
                } else {
                    assert_eq!(action, DrainAction::Deliver);
                }
            }
            assert_eq!(drainer.status(), DrainStatus::Complete);
            assert_eq!(drainer.received(), &expected);
            assert_eq!(drainer.finish(), Ok(expected));
        }
    }
}

#[test]
fn drain_counts_consecutive_quiet_polls_only() {
    let mut drainer = ResponseDrainer::new(policy(3, 100));
    assert_eq!(drainer.step(b""), DrainAction::Wait(10));
    assert_eq!(drainer.step(b""), DrainAction::Wait(10));
    assert_eq!(drainer.step(b""), DrainAction::Wait(10));
    assert_eq!(drainer.step(b""), DrainAction::Wait(10));
    assert_eq!(drainer.step(b"ab"), DrainAction::Poll);
    assert_eq!(drainer.step(b""), DrainAction::Wait(10));
    assert_eq!(drainer.step(b""), DrainAction::Wait(10));
    assert_eq!(drainer.step(b"cd"), DrainAction::Poll);
    assert_eq!(drainer.step(b""), DrainAction::Wait(10));
    assert_eq!(drainer.step(b""), DrainAction::Wait(10));
    assert_eq!(drainer.step(b""), DrainAction::Deliver);
    assert_eq!(drainer.step(b"late"), DrainAction::Deliver);
    assert_eq!(drainer.step(b""), DrainAction::Deliver);
    assert_eq!(drainer.finish(), Ok(b"abcd".to_vec()));
}

#[test]
fn drain_without_data_times_out() {
    for max_polls in 1u64..=20 {
        let mut drainer = ResponseDrainer::new(policy(3, max_polls));
        for _ in 1..max_polls {
            assert_eq!(drainer.step(b""), DrainAction::Wait(10));
            assert_eq!(drainer.status(), DrainStatus::Draining);
        }
        assert_eq!(drainer.step(b""), DrainAction::GiveUp);
        assert_eq!(drainer.status(), DrainStatus::TimedOut);
        assert_eq!(drainer.step(b"late"), DrainAction::GiveUp);
        assert!(drainer.received().is_empty());
        assert_eq!(drainer.finish(), Err(TransportError::DrainTimeout));
    }
    let spent = ResponseDrainer::new(policy(3, 0));
    assert_eq!(spent.status(), DrainStatus::TimedOut);
}

#[test]
fn drain_is_bound_even_when_data_keeps_coming() {
    let mut drainer = ResponseDrainer::new(policy(3, 4));
    assert_eq!(drainer.step(b"a"), DrainAction::Poll);
    assert_eq!(drainer.step(b"b"), DrainAction::Poll);
    assert_eq!(drainer.step(b"c"), DrainAction::Poll);
    assert_eq!(drainer.step(b"d"), DrainAction::GiveUp);
    assert_eq!(drainer.status(), DrainStatus::TimedOut);
    assert_eq!(drainer.finish(), Err(TransportError::DrainTimeout));
    let mut just = ResponseDrainer::new(policy(2, 3));
    assert_eq!(just.step(b"a"), DrainAction::Poll);
    assert_eq!(just.step(b""), DrainAction::Wait(10));
    assert_eq!(just.step(b""), DrainAction::Deliver);
    assert_eq!(just.finish(), Ok(b"a".to_vec()));
}

#[test]
fn drain_given_up_early_hands_out_nothing() {
    let mut drainer = ResponseDrainer::new(policy(3, 10));
    assert_eq!(drainer.step(b"partial"), DrainAction::Poll);
    assert_eq!(drainer.finish(), Err(TransportError::DrainTimeout));
}

#[test]
fn conclude_frames_and_extracts() {
    assert_eq!(
        conclude(Expectation::Text, b"HTTP/1.1 200 OK\r\n\r\n{\"value\":\"https://vk.com/\"}"),
        Ok(EnvelopePayload::Text("https://vk.com/".to_string()))
    );
    assert_eq!(
        conclude(Expectation::Binary, b"HTTP/1.1 200 OK\r\n\r\n{\"value\":\"QUJD\"}"),
        Ok(EnvelopePayload::Binary(b"ABC".to_vec()))
    );
    assert_eq!(
        conclude(Expectation::Text, b"{\"value\":1}"),
        Err(TransportError::MalformedResponse)
    );
    assert_eq!(
        conclude(Expectation::Binary, b"{\"value\":\"QUJD\"}\r\n\r\n"),
        Err(TransportError::EnvelopeNotFound)
    );
    assert_eq!(
        extract(Expectation::Text, b"{\"value\":[1]}"),
        Ok(EnvelopePayload::Text("[1]".to_string()))
    );
}

fn drive(expectation: Expectation, reads: Vec<&[u8]>) -> Cycle {
    let mut cycle = Cycle::new(expectation, policy(2, 50));
    assert_eq!(cycle.state(), CycleState::Idle);
    cycle.sent();
    assert_eq!(cycle.state(), CycleState::Sent);
    assert_eq!(cycle.begin_drain(), DrainAction::Poll);
    assert_eq!(cycle.state(), CycleState::Draining);
    for read in reads {
        cycle.poll(read);
    }
    cycle
}

#[test]
fn cycle_runs_from_idle_to_extracted() {
    let mut cycle = Cycle::new(Expectation::Text, policy(2, 50));
    cycle.sent();
    assert_eq!(cycle.begin_drain(), DrainAction::Poll);
    assert_eq!(cycle.poll(b""), DrainAction::Wait(10));
    assert_eq!(cycle.poll(b"HTTP/1.1 200 OK\r\n"), DrainAction::Poll);
    assert_eq!(cycle.poll(b"\r\n{\"value\":"), DrainAction::Poll);
    assert_eq!(cycle.poll(b""), DrainAction::Wait(10));
    assert_eq!(cycle.poll(b"\"https://vk.com/\"}"), DrainAction::Poll);
    assert_eq!(cycle.poll(b""), DrainAction::Wait(10));
    assert_eq!(cycle.state(), CycleState::Draining);
    assert_eq!(cycle.poll(b""), DrainAction::Deliver);
    assert_eq!(cycle.state(), CycleState::Framed);
    assert_eq!(cycle.poll(b"more"), DrainAction::Deliver);
    cycle.extract();
    assert_eq!(cycle.state(), CycleState::Extracted);
    assert_eq!(
        cycle.finish(),
        Ok(EnvelopePayload::Text("https://vk.com/".to_string()))
    );
}

#[test]
fn cycle_binary() {
    let mut cycle = drive(
        Expectation::Binary,
        vec![b"HTTP/1.1 200 OK\r\n\r\n{\"value\":\"aGVsbG8g", b"d29ybGQ=\"}", b"", b""],
    );
    assert_eq!(cycle.state(), CycleState::Framed);
    cycle.extract();
    assert_eq!(cycle.finish(), Ok(EnvelopePayload::Binary(b"hello world".to_vec())));
}

#[test]
fn cycle_failures_are_states_of_their_own() {
    let mut cycle = Cycle::new(Expectation::Text, policy(2, 50));
    cycle.connect_failed();
    assert_eq!(cycle.state(), CycleState::ConnectFailed);
    cycle.sent();
    assert_eq!(cycle.begin_drain(), DrainAction::GiveUp);
    assert_eq!(cycle.poll(b"x"), DrainAction::GiveUp);
    cycle.extract();
    assert_eq!(cycle.state(), CycleState::ConnectFailed);
    assert_eq!(cycle.finish(), Err(TransportError::ConnectionError));

    let mut cycle = Cycle::new(Expectation::Text, policy(2, 50));
    cycle.write_failed();
    assert_eq!(cycle.state(), CycleState::WriteFailed);
    assert_eq!(cycle.finish(), Err(TransportError::ConnectionError));

    let mut silent = drive(Expectation::Text, vec![]);
    for _ in 0..49 {
        assert_eq!(silent.poll(b""), DrainAction::Wait(10));
    }
    assert_eq!(silent.poll(b""), DrainAction::GiveUp);
    assert_eq!(silent.state(), CycleState::DrainTimeout);
    assert_eq!(silent.finish(), Err(TransportError::DrainTimeout));

    let malformed = drive(Expectation::Text, vec![b"{\"value\":1}", b"", b""]);
    assert_eq!(malformed.state(), CycleState::MalformedResponse);
    assert_eq!(malformed.finish(), Err(TransportError::MalformedResponse));

    let mut missing = drive(Expectation::Text, vec![b"\r\n\r\n{}", b"", b""]);
    missing.extract();
    assert_eq!(missing.state(), CycleState::EnvelopeNotFound);
    assert_eq!(missing.finish(), Err(TransportError::EnvelopeNotFound));

    let mut garbled = drive(Expectation::Text, vec![b"\r\n\r\n{", b"", b""]);
    garbled.extract();
    assert_eq!(garbled.state(), CycleState::JSONDecodeError);
    assert_eq!(garbled.finish(), Err(TransportError::JSONDecodeError));

    let mut notbase64 = drive(Expectation::Binary, vec![b"\r\n\r\n{\"value\":\"***\"}", b"", b""]);
    notbase64.extract();
    assert_eq!(notbase64.state(), CycleState::Base64DecodeError);
    assert_eq!(notbase64.finish(), Err(TransportError::Base64DecodeError));
}

#[test]
fn cycle_hands_out_nothing_before_extraction() {
    let framed = drive(Expectation::Text, vec![b"\r\n\r\n{\"value\":1}", b"", b""]);
    assert_eq!(framed.state(), CycleState::Framed);
    assert_eq!(framed.finish(), Err(TransportError::DrainTimeout));
    let draining = drive(Expectation::Text, vec![b"\r\n\r\n{\"value\":1}"]);
    assert_eq!(draining.finish(), Err(TransportError::DrainTimeout));
    let idle = Cycle::new(Expectation::Text, policy(2, 50));
    assert_eq!(idle.finish(), Err(TransportError::ConnectionError));
    let mut spent = Cycle::new(Expectation::Text, policy(2, 0));
    spent.sent();
    assert_eq!(spent.begin_drain(), DrainAction::GiveUp);
    assert_eq!(spent.state(), CycleState::DrainTimeout);
}

fn by_length(threshold: u32, max_polls: u64) -> DrainPolicy {
    DrainPolicy {
        strategy: CompletionStrategy::DeclaredLength,
        quiescence_threshold: threshold,
        poll_interval_ms: 10,
        max_polls,
    }
}

#[test]
fn declared_lengths() {
    assert_eq!(content_length(b"HTTP/1.1 200 OK\r\nContent-Length: 14"), Some(14));
    assert_eq!(content_length(b"HTTP/1.1 200 OK\r\ncontent-length:0\r\nX: y"), Some(0));
    assert_eq!(content_length(b"HTTP/1.1 200 OK\r\nCONTENT-LENGTH: \t 007\r\n"), Some(7));
    assert_eq!(
        content_length(b"S\r\nContent-Length: 18446744073709551615\r\n"),
        Some(u64::MAX)
    );
    assert_eq!(content_length(b"S\r\nContent-Length: 18446744073709551616\r\n"), None);
    assert_eq!(content_length(b"S\r\nContent-Length: 99999999999999999999999\r\n"), None);
    assert_eq!(content_length(b"S\r\nContent-Length: 12abc"), Some(12));
    assert_eq!(content_length(b"S\r\nContent-Length: \r\n"), None);
    assert_eq!(content_length(b"S\r\nContent-Length: -1"), None);
    assert_eq!(content_length(b"S\r\nContent-Length:"), None);
    assert_eq!(content_length(b"Content-Length: 5"), None);
    assert_eq!(content_length(b"S\r\nX-Note: Content-Length: 5"), None);
    assert_eq!(content_length(b"S\r\nContent-Length: 5\r\nContent-Length: 6"), Some(5));
    assert_eq!(content_length(b"S\r\nContent-Type: text/plain"), None);
    assert_eq!(content_length(b""), None);
}

#[test]
fn complete_by_declared_length() {
    assert!(is_length_complete(b"S\r\nContent-Length: 2\r\n\r\n{}"));
    assert!(is_length_complete(b"S\r\nContent-Length: 2\r\n\r\n{}extra"));
    assert!(is_length_complete(b"S\r\nContent-Length: 0\r\n\r\n"));
    assert!(!is_length_complete(b"S\r\nContent-Length: 3\r\n\r\n{}"));
    assert!(!is_length_complete(b"S\r\nContent-Length: 2\r\n{}"));
    assert!(!is_length_complete(b"S\r\n\r\nContent-Length: 2\r\n\r\n{}"));
    assert!(!is_length_complete(b"S\r\nX: y\r\n\r\n{}"));
    assert!(!is_length_complete(b""));
}

#[test]
fn drain_by_declared_length() {
    let mut drainer = ResponseDrainer::new(by_length(3, 100));
    assert_eq!(drainer.step(b"HTTP/1.1 200 OK\r\nContent-Len"), DrainAction::Poll);
    assert_eq!(drainer.step(b""), DrainAction::Wait(10));
    assert_eq!(drainer.step(b"gth: 14\r\n\r\n{\"val"), DrainAction::Poll);
    assert_eq!(drainer.step(b""), DrainAction::Wait(10));
    assert_eq!(drainer.step(b""), DrainAction::Wait(10));
    assert_eq!(drainer.step(b"ue\":null}"), DrainAction::Deliver);
    assert_eq!(drainer.status(), DrainStatus::Complete);
    assert_eq!(
        drainer.finish(),
        Ok(b"HTTP/1.1 200 OK\r\nContent-Length: 14\r\n\r\n{\"value\":null}".to_vec())
    );
    let mut same = ResponseDrainer::new(policy(3, 100));
    assert_eq!(
        same.step(b"HTTP/1.1 200 OK\r\nContent-Length: 14\r\n\r\n{\"value\":null}"),
        DrainAction::Poll
    );
    assert_eq!(same.status(), DrainStatus::Draining);
}

#[test]
fn drain_by_declared_length_falls_back_on_quiescence() {
    let mut short = ResponseDrainer::new(by_length(2, 100));
    assert_eq!(short.step(b"S\r\nContent-Length: 9\r\n\r\n{}"), DrainAction::Poll);
    assert_eq!(short.step(b""), DrainAction::Wait(10));
    assert_eq!(short.step(b""), DrainAction::Deliver);
    assert_eq!(short.finish(), Ok(b"S\r\nContent-Length: 9\r\n\r\n{}".to_vec()));
    let mut plain = ResponseDrainer::new(by_length(2, 100));
    assert_eq!(plain.step(b"S\r\n\r\n{}"), DrainAction::Poll);
    assert_eq!(plain.step(b""), DrainAction::Wait(10));
    assert_eq!(plain.step(b""), DrainAction::Deliver);
    let mut silent = ResponseDrainer::new(by_length(2, 3));
    assert_eq!(silent.step(b""), DrainAction::Wait(10));
    assert_eq!(silent.step(b""), DrainAction::Wait(10));
    assert_eq!(silent.step(b""), DrainAction::GiveUp);
    assert_eq!(silent.finish(), Err(TransportError::DrainTimeout));
    let mut last = ResponseDrainer::new(by_length(2, 1));
    assert_eq!(last.step(b"S\r\nContent-Length: 2\r\n\r\n{}"), DrainAction::Deliver);
}

#[test]
fn cycle_by_declared_length() {
    let mut cycle = Cycle::new(Expectation::Text, by_length(3, 100));
    cycle.sent();
    assert_eq!(cycle.begin_drain(), DrainAction::Poll);
    assert_eq!(
        cycle.poll(b"HTTP/1.1 200 OK\r\ncontent-length: 27\r\n\r\n{\"value\":\"https://vk.com/\"}"),
        DrainAction::Deliver
    );
    assert_eq!(cycle.state(), CycleState::Framed);
    cycle.extract();
    assert_eq!(
        cycle.finish(),
        Ok(EnvelopePayload::Text("https://vk.com/".to_string()))
    );
}
