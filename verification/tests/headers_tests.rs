use esplora_auth_proxy::headers::{
    forwarded, hop_by_hop, redact_headers, request_headers, response_headers, shown_value,
    stripped, visible, Direction, Header,
};

fn h(name: &str, value: &str) -> Header {
    Header { name: name.to_string(), value: value.as_bytes().to_vec() }
}

#[test]
fn request_filter_drops_credentials_host_and_connection() {
    let inbound = vec![
        h("Authorization", "Bearer xyz"),
        h("Host", "client.example"),
        h("Connection", "keep-alive"),
        h("X-Custom", "1"),
    ];
    let out = request_headers(&inbound, "Bearer fresh");
    assert_eq!(out, vec![h("X-Custom", "1"), h("authorization", "Bearer fresh")]);
    assert!(!out.iter().any(|x| x.name.eq_ignore_ascii_case("host")));
    assert!(!out.iter().any(|x| x.name.eq_ignore_ascii_case("connection")));
    assert!(!out.iter().any(|x| x.value == b"Bearer xyz".to_vec()));
}

#[test]
fn request_filter_drops_every_excluded_name() {
    for name in [
        "connection",
        "keep-alive",
        "proxy-authenticate",
        "proxy-authorization",
        "te",
        "trailer",
        "transfer-encoding",
        "upgrade",
        "authorization",
        "host",
    ] {
        assert!(stripped(name, Direction::Request), "{}", name);
        assert!(stripped(&name.to_uppercase(), Direction::Request), "{}", name);
        let out = request_headers(&vec![h(name, "v")], "Bearer b");
        assert_eq!(out, vec![h("authorization", "Bearer b")]);
    }
}

#[test]
fn response_filter_keeps_authorization_and_host() {
    let upstream = vec![
        h("Content-Type", "text/plain"),
        h("Transfer-Encoding", "chunked"),
        h("Authorization", "Basic abc"),
        h("Host", "upstream.example"),
        h("KEEP-ALIVE", "timeout=5"),
        h("Upgrade", "h2c"),
    ];
    let out = response_headers(&upstream);
    assert_eq!(
        out,
        vec![
            h("Content-Type", "text/plain"),
            h("Authorization", "Basic abc"),
            h("Host", "upstream.example"),
        ]
    );
    assert!(!stripped("authorization", Direction::Response));
    assert!(!stripped("host", Direction::Response));
}

#[test]
fn names_are_matched_whole_and_without_case() {
    assert!(hop_by_hop("TE"));
    assert!(hop_by_hop("Te"));
    assert!(hop_by_hop("tRaIlEr"));
    assert!(!hop_by_hop("tea"));
    assert!(!hop_by_hop("t"));
    assert!(!hop_by_hop(""));
    assert!(!hop_by_hop("x-connection"));
    assert!(!hop_by_hop("connection "));
    assert!(!hop_by_hop("content-length"));
}

#[test]
fn order_and_repeated_headers_are_kept() {
    let inbound = vec![h("accept", "a"), h("te", "trailers"), h("accept", "b"), h("x", "")];
    assert_eq!(
        forwarded(&inbound, Direction::Request),
        vec![h("accept", "a"), h("accept", "b"), h("x", "")]
    );
    assert_eq!(forwarded(&Vec::new(), Direction::Response), Vec::<Header>::new());
}

#[test]
fn values_are_copied_byte_for_byte() {
    let raw = Header { name: "x-bin".to_string(), value: vec![0, 159, 255, 10] };
    let out = request_headers(&vec![raw.clone()], "Bearer t");
    assert_eq!(out[0], raw);
    assert_eq!(out.len(), 2);
}

#[test]
fn empty_request_gets_only_the_bearer() {
    let out = request_headers(&Vec::new(), "Bearer only");
    assert_eq!(out, vec![h("authorization", "Bearer only")]);
}

#[test]
fn redaction_hides_credentials_and_marks_binary_values() {
    let list = vec![
        h("Authorization", "Bearer secret"),
        h("accept", "text/html"),
        Header { name: "x-bin".to_string(), value: vec![0x80, 0x01] },
        Header { name: "x-ctl".to_string(), value: vec![b'a', 0x07] },
        Header { name: "x-tab".to_string(), value: vec![b'a', b'\t', b'b'] },
        Header { name: "x-utf8".to_string(), value: "é".as_bytes().to_vec() },
    ];
    let shown = redact_headers(&list);
    let expect = |n: &str, v: &str| (n.to_string(), v.to_string());
    assert_eq!(
        shown,
        vec![
            expect("Authorization", "<redacted>"),
            expect("accept", "text/html"),
            expect("x-bin", "<bin>"),
            expect("x-ctl", "<bin>"),
            expect("x-tab", "a\tb"),
            expect("x-utf8", "<bin>"),
        ]
    );
    assert_eq!(shown_value(&h("AUTHORIZATION", "x")), "<redacted>");
    assert_eq!(shown_value(&h("proxy-authorization", "x")), "x");
}

#[test]
fn visible_bytes_are_printable_ascii_and_tab() {
    assert!(visible(&b"hello world~".to_vec()));
    assert!(visible(&vec![9, 32, 126]));
    assert!(visible(&Vec::new()));
    assert!(!visible(&vec![31]));
    assert!(!visible(&vec![127]));
    assert!(!visible(&vec![b'a', 200]));
}
