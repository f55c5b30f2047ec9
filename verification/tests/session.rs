use dynhost::funbox::packets::{
    is_connected, wan_ip, LoginRequest, StateRequest, StateResponse, WANStatusRequest,
    WANStatusResponse, FTTH,
};
use dynhost::funbox::{capture_session_cookie, check_response, ApiError, Session};

#[test]
fn unauthorized_status_signals_distinctly() {
    let r = check_response(401, &"whatever".to_string());
    assert!(matches!(r, Err(ApiError::Unauthorized)));
}

#[test]
fn error_indicator_becomes_message() {
    let r = check_response(200, &"{\"errors\":[1]}".to_string());
    match r {
        Err(ApiError::Message(m)) => {
            assert_eq!(m, "Got some errors in response: {\"errors\":[1]}");
        },
        _ => panic!("expected a message error"),
    }
}

#[test]
fn clean_response_passes() {
    let r = check_response(200, &"{\"status\":0}".to_string());
    assert!(r.is_ok());
}

#[test]
fn only_the_http_only_cookie_is_retained() {
    let headers = vec![
        "lang=en; Path=/".to_string(),
        "sess=abc123; HttpOnly; Path=/; Secure".to_string(),
        "other=zzz; HttpOnly".to_string(),
    ];
    let got = capture_session_cookie(&headers);
    assert_eq!(got, Some("sess=abc123".to_string()));
}

#[test]
fn no_http_only_cookie_yields_nothing() {
    let headers = vec!["lang=en; Path=/".to_string(), "theme=dark".to_string()];
    assert_eq!(capture_session_cookie(&headers), None);
}

#[test]
fn cookie_without_attributes_is_kept_whole() {
    let headers = vec!["raw=keepHttpOnly".to_string()];
    assert_eq!(capture_session_cookie(&headers), Some("raw=keepHttpOnly".to_string()));
}

#[test]
fn login_with_context_installs_credentials() {
    let mut s = Session::new("192.168.1.1".to_string());
    let headers = vec![
        "lang=en; Path=/".to_string(),
        "sess=abc; HttpOnly; Path=/".to_string(),
    ];
    let r = s.complete_login(&headers, "ctx-1".to_string());
    assert!(r.is_ok());
    assert_eq!(s.context_id, "ctx-1");
    assert_eq!(s.cookie, "sess=abc");
    assert_eq!(s.host, "192.168.1.1");
}

#[test]
fn empty_context_fails_and_clobbers_nothing() {
    let mut s = Session::new("192.168.1.1".to_string());
    let headers = vec!["sess=abc; HttpOnly".to_string()];
    let r = s.complete_login(&headers, "first".to_string());
    assert!(r.is_ok());
    let r = s.complete_login(&headers, String::new());
    match r {
        Err(ApiError::Message(m)) => assert_eq!(m, "Response context ID is empty"),
        _ => panic!("expected a message error"),
    }
    assert_eq!(s.context_id, "first");
    assert_eq!(s.cookie, "sess=abc");
}

#[test]
fn login_without_cookie_keeps_prior_cookie() {
    let mut s = Session::new("h".to_string());
    let with_cookie = vec!["sess=abc; HttpOnly".to_string()];
    s.complete_login(&with_cookie, "c1".to_string()).unwrap();
    let without = vec!["lang=en".to_string()];
    s.complete_login(&without, "c2".to_string()).unwrap();
    assert_eq!(s.context_id, "c2");
    assert_eq!(s.cookie, "sess=abc");
}

#[test]
fn authorized_headers_carry_the_token() {
    let mut s = Session::new("192.168.1.1".to_string());
    let headers = vec!["sess=abc; HttpOnly".to_string()];
    s.complete_login(&headers, "abc/def".to_string()).unwrap();
    assert_eq!(s.authorization_header(), "X-Sah abc/def");
    assert_eq!(s.cookie_header(), "sess=abc; sah/contextId=abc%2Fdef");
    assert_eq!(s.endpoint_url(), "http://192.168.1.1/ws");
}

#[test]
fn login_request_renders_its_json_body() {
    let req = LoginRequest::create("admin".to_string(), "pw".to_string());
    assert_eq!(
        req.to_json(),
        "{\"method\":\"createContext\",\"parameters\":{\"applicationName\":\"webui\",\
         \"password\":\"pw\",\"username\":\"admin\"},\"service\":\"sah.Device.Information\"}"
    );
}

#[test]
fn login_request_escapes_credentials() {
    let req = LoginRequest::create("a\"b".to_string(), "p\\q\nr".to_string());
    assert_eq!(
        req.to_json(),
        "{\"method\":\"createContext\",\"parameters\":{\"applicationName\":\"webui\",\
         \"password\":\"p\\\\q\\nr\",\"username\":\"a\\\"b\"},\"service\":\"sah.Device.Information\"}"
    );
}

#[test]
fn json_escaping_matches_the_json_decoder() {
    let req = LoginRequest::create("a\"b".to_string(), "tab\there".to_string());
    let v: serde_json::Value = serde_json::from_str(&req.to_json()).unwrap();
    assert_eq!(v["parameters"]["username"], "a\"b");
    assert_eq!(v["parameters"]["password"], "tab\there");
    assert_eq!(v["method"], "createContext");
    assert_eq!(v["service"], "sah.Device.Information");
}

#[test]
fn connection_state_is_read_from_the_status_field() {
    assert!(is_connected(&StateResponse { status: "connected".to_string() }));
    assert!(!is_connected(&StateResponse { status: "down".to_string() }));
    assert!(!is_connected(&StateResponse { status: "".to_string() }));
}

#[test]
fn wan_ip_reads_the_address_field() {
    let resp = WANStatusResponse {
        status: true,
        data: FTTH {
            wan_state: "up".to_string(),
            link_type: "ethernet".to_string(),
            link_state: "up".to_string(),
            gpon_state: "O5_Operation".to_string(),
            mac_address: "00:00:00:00:00:00".to_string(),
            protocol: "dhcp".to_string(),
            connection_state: "Bound".to_string(),
            last_connection_error: "None".to_string(),
            ip_address: "217.97.122.207".to_string(),
            remote_gateway: "217.97.122.1".to_string(),
            dns_servers: "1.1.1.1".to_string(),
            ipv6_address: "".to_string(),
        },
    };
    assert_eq!(wan_ip(&resp), "217.97.122.207");
}

#[test]
fn plain_requests_render_their_json_bodies() {
    assert_eq!(
        StateRequest::create().to_json(),
        "{\"method\":\"getState\",\"parameters\":null,\"service\":\"UserInterface\"}"
    );
    assert_eq!(
        WANStatusRequest::create().to_json(),
        "{\"method\":\"getWANStatus\",\"parameters\":null,\"service\":\"NMC\"}"
    );
}
