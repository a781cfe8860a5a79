use irssi_v5::terminal::{
    config_path, detach_socket_path, port_text, relay_frame, socket_to_remove, spawn_args,
    terminal_route, terminal_subprotocol, upstream_origin, upstream_ws_url, FrameKind, SessionPolicy,
    TerminalRoute,
};

#[test]
fn port_text_values() {
    assert_eq!(port_text(0), "0");
    assert_eq!(port_text(7), "7");
    assert_eq!(port_text(7100), "7100");
    assert_eq!(port_text(65535), "65535");
}

#[test]
fn spawn_args_per_policy() {
    let e = spawn_args(SessionPolicy::Ephemeral, 7100, "al", "/data/sessions/al");
    assert_eq!(
        e,
        vec!["--port", "7100", "--interface", "127.0.0.1", "--writable", "irssi", "--config", "/data/sessions/al/irssi.conf"]
    );
    let d = spawn_args(SessionPolicy::Detached, 7101, "al", "/d/al");
    assert_eq!(
        d,
        vec![
            "--port", "7101", "--interface", "127.0.0.1", "--writable", "dtach", "-A", "/tmp/irc-al.sock",
            "irssi", "--config", "/d/al/irssi.conf"
        ]
    );
}

#[test]
fn kill_socket_per_policy() {
    assert_eq!(socket_to_remove(SessionPolicy::Detached, "al"), Some("/tmp/irc-al.sock".to_string()));
    assert_eq!(socket_to_remove(SessionPolicy::Ephemeral, "al"), None);
    assert_eq!(detach_socket_path("bo"), "/tmp/irc-bo.sock");
    assert_eq!(config_path("/x"), "/x/irssi.conf");
}

#[test]
fn upstream_dial_settings() {
    assert_eq!(upstream_ws_url(7100), "ws://127.0.0.1:7100/ws");
    assert_eq!(upstream_origin(7100), "http://127.0.0.1:7100");
    assert_eq!(terminal_subprotocol(), "tty");
}

fn forward(r: TerminalRoute) -> String {
    match r {
        TerminalRoute::Forward(u) => u,
        TerminalRoute::Handshake => panic!("expected a forward"),
    }
}

#[test]
fn terminal_routes() {
    assert!(matches!(terminal_route("/terminal/token", None, 7100), TerminalRoute::Handshake));
    assert_eq!(forward(terminal_route("/terminal/", None, 7100)), "http://127.0.0.1:7100/");
    assert_eq!(forward(terminal_route("/terminal", None, 7100)), "http://127.0.0.1:7100/");
    assert_eq!(
        forward(terminal_route("/terminal/js/app.js", Some("v=2&x=1"), 7105)),
        "http://127.0.0.1:7105/js/app.js?v=2&x=1"
    );
    assert_eq!(forward(terminal_route("/other", None, 7100)), "http://127.0.0.1:7100/other");
}

#[test]
fn relay_stops_on_close() {
    assert_eq!(relay_frame(FrameKind::Close), None);
    assert_eq!(relay_frame(FrameKind::Raw), None);
    for k in [FrameKind::Text, FrameKind::Binary, FrameKind::Ping, FrameKind::Pong] {
        assert_eq!(relay_frame(k), Some(k));
    }
}
