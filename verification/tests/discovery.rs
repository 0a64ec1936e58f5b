use macwinshare::discovery::{
    build_query, build_response, is_query, mdns_service_type, parse_response, respond_to,
    UDP_DISCOVERY_PORT,
};

#[test]
fn query_packet_layout() {
    let q = build_query("id-1");
    assert_eq!(q, b"MWSHARE1QUERY\0id-1".to_vec());
    assert!(is_query(&q));
    assert!(is_query(b"MWSHARE1QUERY\0"));
    assert!(!is_query(b"MWSHARE1"));
    assert!(!is_query(b"MWSHARE2QUERY\0x"));
    assert!(!is_query(b"MWSHARE1RESPONSE\0x"));
    assert_eq!(UDP_DISCOVERY_PORT, 24801);
    assert_eq!(mdns_service_type(), "_macwinshare._tcp.local.");
}

#[test]
fn response_packet_layout() {
    assert_eq!(build_response("Desk"), b"MWSHARE1RESPONSE\0Desk".to_vec());
}

#[test]
fn server_answers_queries_only() {
    assert_eq!(respond_to(b"MWSHARE1QUERY\0abc", "Srv"), Some(b"MWSHARE1RESPONSE\0Srv".to_vec()));
    assert_eq!(respond_to(b"MWSHARE1RESPONSE\0abc", "Srv"), None);
    assert_eq!(respond_to(b"hello", "Srv"), None);
}

#[test]
fn response_parsing() {
    assert_eq!(parse_response(&build_response("Büro")), Some("Büro".to_string()));
    assert_eq!(parse_response(b"MWSHARE1RESPONSE\0Name\0\0"), Some("Name".to_string()));
    assert_eq!(parse_response(b"MWSHARE1RESPONSE\0"), Some(String::new()));
    assert_eq!(parse_response(b"MWSHARE1RESPONSE\0\xff"), None);
    assert_eq!(parse_response(b"MWSHARE1QUERY\0Name"), None);
    assert_eq!(parse_response(b"MWSHARE"), None);
}
