use dsh_desktop::commands::{boot_payload, record_fullscreen};
use dsh_desktop::host::HostState;
use dsh_desktop::protocol::{loading_url_text, respond, LOADING_PAGE_CONTENT_TYPE};

#[test]
fn boot_hands_over_a_ready_hosts_address_and_injections() {
    let p = boot_payload(&HostState::Ready { url: "http://127.0.0.1:9/".into(), injections: vec!["{\"marker\":\"fake-host\"}".into()] });
    assert_eq!(p.stream_base_url.as_deref(), Some("http://127.0.0.1:9/"));
    assert_eq!(p.injections, vec!["{\"marker\":\"fake-host\"}"]);
    for state in [HostState::Starting, HostState::Stopped, HostState::Failed { message: "x".into(), exit_code: Some(1), port_in_use: false, diagnostics: String::new() }, HostState::NotConfigured { reason: "r".into() }] {
        let p = boot_payload(&state);
        assert_eq!(p.stream_base_url, None);
        assert!(p.injections.is_empty());
    }
}

#[test]
fn fullscreen_is_broadcast_only_on_change() {
    let mut last = None;
    assert!(record_fullscreen(&mut last, false));
    assert_eq!(last, Some(false));
    assert!(!record_fullscreen(&mut last, false));
    assert!(record_fullscreen(&mut last, true));
    assert!(!record_fullscreen(&mut last, true));
    assert_eq!(last, Some(true));
}

#[test]
fn protocol_serves_only_the_loading_page() {
    for path in ["/", "/index.html", "/loading.html"] {
        let r = respond(path);
        assert_eq!(r.status, 200);
        assert_eq!(r.content_type, Some(LOADING_PAGE_CONTENT_TYPE));
        assert!(r.loading_page);
    }
    for path in ["", "/app", "/index.htm", "/loading.html/x"] {
        let r = respond(path);
        assert_eq!(r.status, 404);
        assert_eq!(r.content_type, None);
        assert!(!r.loading_page);
    }
    assert_eq!(loading_url_text(true), "http://dsh-app.localhost/");
    assert_eq!(loading_url_text(false), "dsh-app://localhost/");
}
