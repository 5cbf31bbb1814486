use wezterm::forward::PortForward;

fn local(lh: &str, lp: u16, rh: &str, rp: u16) -> PortForward {
    PortForward::Local {
        local_host: lh.to_string(),
        local_port: lp,
        remote_host: rh.to_string(),
        remote_port: rp,
    }
}

fn remote(rh: Option<&str>, rp: u16, lh: &str, lp: u16) -> PortForward {
    PortForward::Remote {
        remote_host: rh.map(|h| h.to_string()),
        remote_port: rp,
        local_host: lh.to_string(),
        local_port: lp,
    }
}

#[test]
fn local_forward_with_both_hosts() {
    assert_eq!(
        PortForward::new_local("localhost:8080", "example.com:22"),
        Ok(local("localhost", 8080, "example.com", 22))
    );
}

#[test]
fn local_forward_defaults_to_loopback() {
    assert_eq!(
        PortForward::new_local("8080", "db.internal:5432"),
        Ok(local("127.0.0.1", 8080, "db.internal", 5432))
    );
}

#[test]
fn local_forward_accepts_plus_sign_and_limits() {
    assert_eq!(
        PortForward::new_local("+0", "h:65535"),
        Ok(local("127.0.0.1", 0, "h", 65535))
    );
    assert_eq!(
        PortForward::new_local(":1", "höst:00080"),
        Ok(local("", 1, "höst", 80))
    );
}

#[test]
fn local_forward_parse_errors() {
    assert_eq!(
        PortForward::new_local("", "h:1"),
        Err("cannot parse integer from empty string".to_string())
    );
    assert_eq!(
        PortForward::new_local("abc", "h:1"),
        Err("invalid digit found in string".to_string())
    );
    assert_eq!(
        PortForward::new_local("70000", "h:1"),
        Err("number too large to fit in target type".to_string())
    );
    assert_eq!(
        PortForward::new_local("+", "h:1"),
        Err("invalid digit found in string".to_string())
    );
    assert_eq!(
        PortForward::new_local("-1", "h:1"),
        Err("invalid digit found in string".to_string())
    );
    assert_eq!(
        PortForward::new_local("h:99999x", "h:1"),
        Err("number too large to fit in target type".to_string())
    );
    assert_eq!(
        PortForward::new_local("h:12x45678", "h:1"),
        Err("invalid digit found in string".to_string())
    );
    assert_eq!(
        PortForward::new_local("1", "h:"),
        Err("cannot parse integer from empty string".to_string())
    );
}

#[test]
fn local_forward_errors_match_std_parser() {
    for text in ["", "+", "-", "-0", "12a", "65536", "0065535", "+-1", " 1", "٣"] {
        let expected = text.parse::<u16>().map_err(|e| e.to_string());
        let got = PortForward::new_local(text, "h:1").map(|pf| match pf {
            PortForward::Local { local_port, .. } => local_port,
            _ => panic!("not a local forward"),
        });
        assert_eq!(got, expected, "for {:?}", text);
    }
}

#[test]
fn local_forward_address_errors() {
    assert_eq!(
        PortForward::new_local("a:b:c", "h:1"),
        Err("Invalid local address: a:b:c".to_string())
    );
    assert_eq!(
        PortForward::new_local("8080", "22"),
        Err("Invalid remote address: 22".to_string())
    );
    assert_eq!(
        PortForward::new_local("8080", "::1:22"),
        Err("Invalid remote address: ::1:22".to_string())
    );
    // The local end is read first.
    assert_eq!(
        PortForward::new_local("x", "22"),
        Err("invalid digit found in string".to_string())
    );
}

#[test]
fn remote_forward_with_and_without_host() {
    assert_eq!(
        PortForward::new_remote("localhost:3000", "0.0.0.0:8000"),
        Ok(remote(Some("0.0.0.0"), 8000, "localhost", 3000))
    );
    assert_eq!(
        PortForward::new_remote("localhost:3000", "8000"),
        Ok(remote(None, 8000, "localhost", 3000))
    );
}

#[test]
fn remote_forward_errors() {
    assert_eq!(
        PortForward::new_remote("3000", "8000"),
        Err("Invalid local address: 3000".to_string())
    );
    assert_eq!(
        PortForward::new_remote("h:1", "a:b:c"),
        Err("Invalid remote address: a:b:c".to_string())
    );
    assert_eq!(
        PortForward::new_remote("h:x", "8000"),
        Err("invalid digit found in string".to_string())
    );
    // The remote end is read first.
    assert_eq!(
        PortForward::new_remote("3000", "99999"),
        Err("number too large to fit in target type".to_string())
    );
}
