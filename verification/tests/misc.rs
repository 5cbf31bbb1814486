use wezterm::domain::{
    any_pane_in_domain, domain_state_name, forward_kind, requested_port_forward, DomainState,
    ForwardKind, MuxDomain,
};
use wezterm::scripting::{gui_window_for_mux_window, open_with_target, require_gui_thread, UrlOpener};
use wezterm::text::{decimal_string, signed_decimal_string};
use wezterm::forward::PortForward;
use wezterm::session::get_poll_flags;

#[test]
fn poll_flags_follow_blocked_directions() {
    assert_eq!(get_poll_flags(false, false), 0);
    assert_eq!(get_poll_flags(true, false), libc::POLLIN);
    assert_eq!(get_poll_flags(false, true), libc::POLLOUT);
    assert_eq!(get_poll_flags(true, true), libc::POLLIN | libc::POLLOUT);
    assert_eq!(get_poll_flags(true, true), 5);
}

#[test]
fn url_opener_choice() {
    assert_eq!(open_with_target(true, None), UrlOpener::ActiveWindow);
    assert_eq!(open_with_target(false, None), UrlOpener::SystemDefault);
    assert_eq!(
        open_with_target(true, Some("firefox".to_string())),
        UrlOpener::App("firefox".to_string())
    );
    assert_eq!(
        open_with_target(false, Some("vim".to_string())),
        UrlOpener::App("vim".to_string())
    );
}

#[test]
fn mux_domain_names_its_id() {
    let domain = MuxDomain(7);
    assert_eq!(domain.domain_id(), 7);
    assert_eq!(domain, MuxDomain(7));
}

#[test]
fn decimal_text_matches_std() {
    for n in [0u64, 7, 10, 99, 100, 65535, 1234567890, u64::MAX] {
        assert_eq!(decimal_string(n), n.to_string());
    }
    for n in [0i64, -1, 42, -9876, i64::MIN, i64::MAX] {
        assert_eq!(signed_decimal_string(n), n.to_string());
    }
}

#[test]
fn domain_resolution_messages() {
    let domain = MuxDomain(42);
    assert_eq!(domain.resolve(Some("dom")), Ok("dom"));
    assert_eq!(
        domain.resolve::<&str>(None),
        Err("domain id 42 not found in mux".to_string())
    );
    assert_eq!(domain.to_lua_string(1234), "MuxDomain(pane_id:42, pid:1234)");
    assert_eq!(MuxDomain(0).to_lua_string(-5), "MuxDomain(pane_id:0, pid:-5)");
}

#[test]
fn domain_state_names() {
    assert_eq!(domain_state_name(DomainState::Attached), "Attached");
    assert_eq!(domain_state_name(DomainState::Detached), "Detached");
}

#[test]
fn panes_in_domain() {
    assert!(any_pane_in_domain(3, &[1, 2, 3]));
    assert!(!any_pane_in_domain(4, &[1, 2, 3]));
    assert!(!any_pane_in_domain(0, &[]));
}

#[test]
fn forward_kinds() {
    assert_eq!(forward_kind("local"), Ok(ForwardKind::Local));
    assert_eq!(forward_kind("remote"), Ok(ForwardKind::Remote));
    assert_eq!(forward_kind("Local"), Err("Invalid forward type".to_string()));
    assert_eq!(forward_kind(""), Err("Invalid forward type".to_string()));
}

#[test]
fn gui_lookup_messages() {
    assert_eq!(require_gui_thread(Some(1)), Ok(1));
    assert_eq!(
        require_gui_thread::<u8>(None),
        Err("not called on gui thread".to_string())
    );
    assert_eq!(gui_window_for_mux_window(3, Some('w')), Ok('w'));
    assert_eq!(
        gui_window_for_mux_window::<char>(17, None),
        Err("mux window id 17 is not currently associated with a gui window".to_string())
    );
}

#[test]
fn requested_forwards() {
    assert_eq!(
        requested_port_forward(
            ForwardKind::Local,
            "127.0.0.1".to_string(),
            0,
            Some("10.0.0.1".to_string()),
            80,
            true
        ),
        Ok(PortForward::Local {
            local_host: "127.0.0.1".to_string(),
            local_port: 0,
            remote_host: "10.0.0.1".to_string(),
            remote_port: 80,
        })
    );
    assert_eq!(
        requested_port_forward(ForwardKind::Remote, "localhost".to_string(), 3000, None, 0, true),
        Ok(PortForward::Remote {
            remote_host: None,
            remote_port: 0,
            local_host: "localhost".to_string(),
            local_port: 3000,
        })
    );
    assert_eq!(
        requested_port_forward(ForwardKind::Remote, "localhost".to_string(), 3000, None, 0, false),
        Err("Domain is not an SSH domain".to_string())
    );
}
