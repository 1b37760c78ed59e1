use param_relay::handler::{handle_request_body, success_reply, Decision, HttpReply, StorePath};

fn fetch_path(body: &[u8]) -> Vec<u8> {
    match handle_request_body(&body.to_vec()) {
        Decision::Fetch(p) => p.into_bytes(),
        Decision::Reply(r) => panic!("expected a fetch, got status {}", r.status),
    }
}

fn reject(body: &[u8]) -> HttpReply {
    match handle_request_body(&body.to_vec()) {
        Decision::Reply(r) => r,
        Decision::Fetch(p) => {
            panic!("expected a rejection, got fetch of {:?}", p.path_bytes())
        }
    }
}

#[test]
fn success_flow_db_url() {
    let path = fetch_path(br#"{"path": "/app/db-url"}"#);
    assert_eq!(path, b"/app/db-url".to_vec());
    let reply = success_reply("postgres://app-user@db-host/app".to_string());
    assert_eq!(reply.status, 200);
    assert_eq!(reply.content_type.as_str(), "text/html");
    assert_eq!(reply.body.as_str(), "postgres://app-user@db-host/app");
}

#[test]
fn not_json_is_rejected() {
    let reply = reject(b"not json");
    assert_eq!(reply.status, 400);
    assert!(!reply.body.is_empty());
    assert_eq!(reply.content_type.as_str(), "text/html");
}

#[test]
fn missing_path_member_is_rejected() {
    let reply = reject(br#"{"other": "x"}"#);
    assert_eq!(reply.status, 400);
    assert!(!reply.body.is_empty());
}

#[test]
fn missing_parameter_path_still_parses() {
    // The library's part of the exchange: the body parses and the path is
    // handed out. Whether the backend holds a value for it is the caller's
    // affair; this library never sees the failure.
    let path = fetch_path(br#"{"path": "/missing"}"#);
    assert_eq!(path, b"/missing".to_vec());
}

#[test]
fn content_type_is_html_on_both_paths() {
    let reply = reject(b"{");
    assert_eq!(reply.content_type.as_str(), "text/html");
    let ok = success_reply("v".to_string());
    assert_eq!(ok.content_type.as_str(), "text/html");
}

#[test]
fn identical_bodies_decide_alike() {
    let body = br#"{"path": "/a"}"#;
    let first = fetch_path(body);
    let second = fetch_path(body);
    assert_eq!(first, second);
    let r1 = reject(b"nope");
    let r2 = reject(b"nope");
    assert_eq!(r1.status, r2.status);
    assert_eq!(r1.body, r2.body);
}

#[test]
fn rejection_describes_the_failure() {
    let reply = reject(b"");
    assert_eq!(reply.status, 400);
    assert!(reply.body.contains("path"));
}

#[test]
fn empty_object_is_rejected() {
    assert_eq!(reject(b"{}").status, 400);
}

#[test]
fn member_name_is_case_sensitive() {
    assert_eq!(reject(br#"{"Path": "x"}"#).status, 400);
    assert_eq!(reject(br#"{"PATH": "x"}"#).status, 400);
}

#[test]
fn empty_path_value_parses() {
    assert_eq!(fetch_path(br#"{"path": ""}"#), Vec::<u8>::new());
}

#[test]
fn surrounding_whitespace_is_allowed() {
    let path = fetch_path(b" \t\r\n { \"path\" : \"x\" } \n ");
    assert_eq!(path, b"x".to_vec());
}

#[test]
fn duplicate_path_member_is_rejected() {
    assert_eq!(reject(br#"{"path": "a", "path": "b"}"#).status, 400);
}

#[test]
fn non_string_path_is_rejected() {
    assert_eq!(reject(br#"{"path": 5}"#).status, 400);
    assert_eq!(reject(br#"{"path": null}"#).status, 400);
    assert_eq!(reject(br#"{"path": true}"#).status, 400);
    assert_eq!(reject(br#"{"path": ["x"]}"#).status, 400);
    assert_eq!(reject(br#"{"path": {"p": "x"}}"#).status, 400);
}

#[test]
fn unknown_members_of_any_kind_are_ignored() {
    let body = br#"{"a": -0.5e+10, "b": [1, 2.5, true, null, "s"], "c": {"k": false}, "path": "/x"}"#;
    assert_eq!(fetch_path(body), b"/x".to_vec());
}

#[test]
fn nested_path_member_is_not_the_path() {
    let body = br#"{"other": {"path": "decoy"}, "path": "real"}"#;
    assert_eq!(fetch_path(body), b"real".to_vec());
}

#[test]
fn simple_escapes_decode() {
    let body = br#"{"path": "a\nb\"c\\d\/e\tf\rg\bh\fi"}"#;
    assert_eq!(
        fetch_path(body),
        b"a\nb\"c\\d/e\tf\rg\x08h\x0ci".to_vec()
    );
}

#[test]
fn escaped_nul_byte_decodes() {
    assert_eq!(fetch_path(br#"{"path": "a\u0000b"}"#), vec![0x61, 0x00, 0x62]);
}

#[test]
fn unicode_escape_decodes_to_utf8() {
    assert_eq!(fetch_path(br#"{"path": "\u0041"}"#), b"A".to_vec());
    // U+00E9, U+2603: two- and three-byte encodings.
    assert_eq!(
        fetch_path(br#"{"path": "\u00e9\u2603"}"#),
        vec![0xc3, 0xa9, 0xe2, 0x98, 0x83]
    );
}

#[test]
fn surrogate_pair_decodes_to_four_bytes() {
    // U+1F600 written as a surrogate pair.
    assert_eq!(
        fetch_path(br#"{"path": "\ud83d\ude00"}"#),
        vec![0xf0, 0x9f, 0x98, 0x80]
    );
}

#[test]
fn lone_surrogates_are_rejected() {
    assert_eq!(reject(br#"{"path": "\ud83d"}"#).status, 400);
    assert_eq!(reject(br#"{"path": "\udc00"}"#).status, 400);
    assert_eq!(reject(br#"{"path": "\ud83dx"}"#).status, 400);
}

#[test]
fn raw_utf8_bytes_pass_through() {
    let body = "{\"path\": \"h\u{e9}llo\"}".as_bytes().to_vec();
    assert_eq!(fetch_path(&body), "h\u{e9}llo".as_bytes().to_vec());
}

#[test]
fn control_byte_in_string_is_rejected() {
    let mut body: Vec<u8> = br#"{"path": "a"#.to_vec();
    body.push(0x01);
    body.extend_from_slice(br#"b"}"#);
    assert_eq!(reject(&body).status, 400);
}

#[test]
fn escaped_key_still_names_path() {
    // The key decodes to `path`, so it is the path member.
    assert_eq!(fetch_path(br#"{"\u0070ath": "x"}"#), b"x".to_vec());
    // And a second, escaped spelling beside a plain one is a duplicate.
    assert_eq!(reject(br#"{"path": "a", "\u0070ath": "b"}"#).status, 400);
}

#[test]
fn trailing_garbage_is_rejected() {
    assert_eq!(reject(br#"{"path": "x"} x"#).status, 400);
}

#[test]
fn non_object_top_level_is_rejected() {
    assert_eq!(reject(br#""path""#).status, 400);
    assert_eq!(reject(b"[1, 2]").status, 400);
    assert_eq!(reject(b"true").status, 400);
    assert_eq!(reject(b"17").status, 400);
}

#[test]
fn malformed_objects_are_rejected() {
    assert_eq!(reject(br#"{"path": "x",}"#).status, 400);
    assert_eq!(reject(br#"{"path" "x"}"#).status, 400);
    assert_eq!(reject(br#"{"path": "x""#).status, 400);
    assert_eq!(reject(br#"{path: "x"}"#).status, 400);
    assert_eq!(reject(br#"{"path": "x"]"#).status, 400);
}

#[test]
fn malformed_numbers_are_rejected() {
    assert_eq!(reject(br#"{"a": 01, "path": "x"}"#).status, 400);
    assert_eq!(reject(br#"{"a": 1., "path": "x"}"#).status, 400);
    assert_eq!(reject(br#"{"a": 1e, "path": "x"}"#).status, 400);
    assert_eq!(reject(br#"{"a": -, "path": "x"}"#).status, 400);
    // Well-formed numbers beside the path are fine.
    assert_eq!(fetch_path(br#"{"a": 0, "b": -0.25, "c": 2e-3, "path": "x"}"#), b"x".to_vec());
}

#[test]
fn unterminated_string_is_rejected() {
    assert_eq!(reject(br#"{"path": "x"#).status, 400);
    assert_eq!(reject(br#"{"path": "\"#).status, 400);
    assert_eq!(reject(br#"{"path": "\u00"#).status, 400);
    assert_eq!(reject(br#"{"path": "\q"}"#).status, 400);
}

#[test]
fn store_path_round_trip() {
    let p = StorePath::new(b"/app/key".to_vec());
    assert_eq!(p.path_bytes(), &b"/app/key".to_vec());
    assert_eq!(p.into_bytes(), b"/app/key".to_vec());
}

#[test]
fn success_reply_keeps_value_exactly() {
    let reply = success_reply(String::new());
    assert_eq!(reply.status, 200);
    assert_eq!(reply.body.as_str(), "");
    let reply = success_reply("two words".to_string());
    assert_eq!(reply.body.as_str(), "two words");
}
