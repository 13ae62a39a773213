use creamhack::auth::{Auth, AuthCookies};
use creamhack::vm_info::{MachineInfo, PortMapping, Protocol};

fn machine(port_mappings: Vec<Vec<PortMapping>>) -> MachineInfo {
    MachineInfo {
        id: "vm".to_string(),
        state: "running".to_string(),
        memory: 0,
        swap: 0,
        starttime: String::new(),
        endtime: String::new(),
        host: "1.2.3.4".to_string(),
        port_mappings,
    }
}

#[test]
fn network_info_from_first_mapping() {
    let m = machine(vec![vec![
        PortMapping::String("tcp".to_string()),
        PortMapping::Integer(10332),
        PortMapping::Integer(8080),
    ]]);
    let n = m.get_network_info().expect("one mapping");
    assert_eq!(n.protocol, Protocol::Tcp);
    assert_eq!(n.external, 10332);
    assert_eq!(n.internal, 8080);
    assert_eq!(n.get_uri_pwn(), "1.2.3.4:10332");
    assert_eq!(n.get_uri_web(), "http://1.2.3.4:10332/");
}

#[test]
fn no_mapping_no_network_info() {
    assert!(machine(Vec::new()).get_network_info().is_none());
    assert!(machine(vec![vec![PortMapping::Integer(1)]]).get_network_info().is_none());
}

#[test]
fn protocols() {
    assert_eq!(Protocol::from_str("udp"), Protocol::Udp);
    assert_eq!(Protocol::from_str("sctp"), Protocol::Unspecified);
    assert_eq!(PortMapping::Integer(70000).get_port(), 4464);
    assert_eq!(PortMapping::String("tcp".to_string()).get_protocol(), "tcp");
}

#[test]
fn session_cookies() {
    let pairs = vec![
        ("other".to_string(), "x".to_string()),
        ("csrf_token".to_string(), "A".to_string()),
        ("sessionid".to_string(), "B".to_string()),
        ("csrf_token".to_string(), "C".to_string()),
    ];
    let cookies = AuthCookies::from_pairs(&pairs);
    assert_eq!(cookies.to_request(), "csrf_token=C; sessionid=B");
    assert_eq!(cookies.get_csrf_token(), "C");
    let auth = Auth::new("k".to_string(), cookies);
    assert!(auth.has_key());
    assert_eq!(auth.get_key(), "k");
    assert_eq!(auth.cookie_header(), "i18n_redirected=ko; csrf_token=C; sessionid=B");
    assert!(!Auth::empty().has_key());
    let headers = auth.request_headers(true);
    assert_eq!(headers.len(), 2);
    assert_eq!(headers[0], ("Cookie".to_string(), "i18n_redirected=ko; csrf_token=C; sessionid=B".to_string()));
    assert_eq!(headers[1], ("X-Csrftoken".to_string(), "C".to_string()));
    assert_eq!(auth.request_headers(false).len(), 1);
}

#[test]
fn missing_cookies_are_empty() {
    let cookies = AuthCookies::from_pairs(&Vec::new());
    assert_eq!(cookies.to_request(), "csrf_token=; sessionid=");
}
