use dash2::hyprland::events::{parse_event, parse_workspace, Event, WorkspaceType};
use dash2::hyprland::types::{Address, CommandContent, CommandFlag};
use dash2::hyprland::{socket_path, HyprlandClient, HyprlandConn, HyprlandListener};

#[test]
fn addresses_are_hex_prefixed() {
    assert_eq!(Address::fmt_new("abc123").text(), "0xabc123");
    assert_eq!(Address::new(String::from("0xff")).text(), "0xff");
    assert_eq!(Address::fmt_new("abc"), Address::fmt_new("abc"));
}

#[test]
fn commands_render_with_their_flag() {
    let content = CommandContent { flag: CommandFlag::JSON, data: String::from("foo") };
    assert_eq!(content.render(), "j/foo");
    assert_eq!(content.as_bytes(), b"j/foo");
    let content = CommandContent { flag: CommandFlag::Empty, data: String::from("bar") };
    assert_eq!(content.render(), "/bar");
    assert_eq!(content.as_bytes(), b"/bar");
    assert_eq!(CommandFlag::default(), CommandFlag::JSON);
}

#[test]
fn socket_paths_follow_the_instance_layout() {
    assert_eq!(
        socket_path("/run/user/1000", "sig", ".socket.sock"),
        "/run/user/1000/hypr/sig/.socket.sock"
    );
    assert_eq!(HyprlandConn::new("/rt", "i").path(), "/rt/hypr/i/.socket.sock");
    assert_eq!(HyprlandClient::new("/rt", "i").path(), "/rt/hypr/i/.socket.sock");
    assert_eq!(HyprlandListener::new("/rt", "i").path(), "/rt/hypr/i/.socket2.sock");
}

#[test]
fn workspace_strings_decode() {
    assert_eq!(parse_workspace(String::from("special")), WorkspaceType::Special(None));
    assert_eq!(
        parse_workspace(String::from("special:scratch")),
        WorkspaceType::Special(Some(String::from("scratch")))
    );
    assert_eq!(
        parse_workspace(String::from("special:a:b")),
        WorkspaceType::Special(Some(String::from("a")))
    );
    assert_eq!(
        parse_workspace(String::from("special:")),
        WorkspaceType::Special(Some(String::from("")))
    );
    assert_eq!(parse_workspace(String::from("3")), WorkspaceType::Regular(String::from("3")));
}

#[test]
fn workspace_records_decode_with_ids() {
    let events = parse_event(String::from("workspacev2>>3,web\n")).unwrap();
    assert_eq!(events.len(), 1);
    match &events[0] {
        Event::Workspace(d) => {
            assert_eq!(d.workspace_id, 3);
            assert_eq!(d.workspace_name, "web");
        }
        other => panic!("unexpected event: {other:?}"),
    }

    let events = parse_event(String::from("destroyworkspacev2>>-2,special")).unwrap();
    match &events[0] {
        Event::DestroyWorkspace(d) => assert_eq!(d.workspace_id, -2),
        other => panic!("unexpected event: {other:?}"),
    }
}

#[test]
fn bad_workspace_ids_fail_the_read() {
    assert!(parse_event(String::from("workspacev2>>x,web")).is_err());
    assert!(parse_event(String::from("createworkspacev2>>99999999999999999999,big")).is_err());
    assert!(parse_event(String::from("renameworkspace>>,noid")).is_err());
}

#[test]
fn superseded_and_unknown_records_are_skipped() {
    let events = parse_event(String::from(
        "workspace>>old\nactivewindow>>cls,ttl\nwindowtitle>>abc\nnope>>x\nplain line\n\nmonitoradded>>DP-1\n",
    ))
    .unwrap();
    assert_eq!(events.len(), 1);
    match &events[0] {
        Event::MonitorAdded(m) => assert_eq!(m, "DP-1"),
        other => panic!("unexpected event: {other:?}"),
    }
}

#[test]
fn window_records_split_at_rightmost_commas() {
    let events = parse_event(String::from("openwindow>>abc123,3,kitty,a, b title")).unwrap();
    match &events[0] {
        Event::OpenWindow(w) => {
            assert_eq!(w.window_address.text(), "0xabc123,3");
            assert_eq!(w.workspace_name, "kitty");
            assert_eq!(w.window_class, "a");
            assert_eq!(w.window_title, " b title");
        }
        other => panic!("unexpected event: {other:?}"),
    }

    let events = parse_event(String::from("windowtitlev2>>deadbf,hello, world")).unwrap();
    match &events[0] {
        Event::WindowTitle(t) => {
            assert_eq!(t.window_address.text(), "0xdeadbf,hello");
            assert_eq!(t.window_title, " world");
        }
        other => panic!("unexpected event: {other:?}"),
    }
}

#[test]
fn state_flags_decode() {
    let events = parse_event(String::from(
        "fullscreen>>1\nchangefloatingmode>>deadbf,0\nminimize>>deadbf,1\nscreencast>>1,0\nactivewindowv2>>,\nactivewindowv2>>beef99",
    ))
    .unwrap();
    assert_eq!(events.len(), 6);
    assert!(matches!(events[0], Event::Fullscreen(true)));
    match &events[1] {
        Event::ChangeFloatingMode(f) => {
            assert_eq!(f.window_address.text(), "0xdeadbf");
            assert!(f.is_floating);
        }
        other => panic!("unexpected event: {other:?}"),
    }
    match &events[2] {
        Event::Minimize(m) => assert!(m.is_minimized),
        other => panic!("unexpected event: {other:?}"),
    }
    match &events[3] {
        Event::Screencast(d) => {
            assert!(d.is_turning_on);
            assert!(!d.is_monitor);
        }
        other => panic!("unexpected event: {other:?}"),
    }
    assert!(matches!(events[4], Event::ActiveWindow(None)));
    match &events[5] {
        Event::ActiveWindow(Some(a)) => assert_eq!(a.text(), "0xbeef99"),
        other => panic!("unexpected event: {other:?}"),
    }
}

#[test]
fn monitor_and_workspace_moves_decode() {
    let events = parse_event(String::from(
        "moveworkspace>>special:mail,DP-1\nfocusedmon>>DP-2,web\nmovewindow>>cafe01,code\nmonitorremoved>>HDMI-1",
    ))
    .unwrap();
    assert_eq!(events.len(), 4);
    match &events[0] {
        Event::MoveWorkspace(m) => {
            assert_eq!(m.monitor_name, "DP-1");
            assert_eq!(m.workspace, WorkspaceType::Special(Some(String::from("mail"))));
        }
        other => panic!("unexpected event: {other:?}"),
    }
    match &events[1] {
        Event::FocusedMon(m) => {
            assert_eq!(m.monitor_name, "DP-2");
            assert_eq!(m.workspace, WorkspaceType::Regular(String::from("web")));
        }
        other => panic!("unexpected event: {other:?}"),
    }
    match &events[2] {
        Event::MoveWindow(w) => {
            assert_eq!(w.window_address.text(), "0xcafe01");
            assert_eq!(w.workspace_name, "code");
        }
        other => panic!("unexpected event: {other:?}"),
    }
    assert!(matches!(&events[3], Event::MonitorRemoved(m) if m == "HDMI-1"));
}

#[test]
fn layer_and_layout_records_decode() {
    let events = parse_event(String::from(
        "openlayer>>waybar\ncloselayer>>waybar\nsubmap>>resize\nactivelayout>>kbd,us\nurgent>>beef22\nclosewindow>>beef22",
    ))
    .unwrap();
    assert_eq!(events.len(), 6);
    assert!(matches!(&events[0], Event::OpenLayer(s) if s == "waybar"));
    assert!(matches!(&events[1], Event::CloseLayer(s) if s == "waybar"));
    assert!(matches!(&events[2], Event::SubMap(s) if s == "resize"));
    match &events[3] {
        Event::ActiveLayout(l) => {
            // The whole remainder is read as the keyboard name.
            assert_eq!(l.keyboard_name, "kbd,us");
            assert_eq!(l.layout_name, "");
        }
        other => panic!("unexpected event: {other:?}"),
    }
    assert!(matches!(&events[4], Event::Urgent(a) if a.text() == "0xbeef22"));
    assert!(matches!(&events[5], Event::CloseWindow(a) if a.text() == "0xbeef22"));
}

#[test]
fn surrounding_whitespace_is_trimmed() {
    let events = parse_event(String::from("  \nmonitoradded>>DP-3\n\n  ")).unwrap();
    assert_eq!(events.len(), 1);
    assert!(matches!(&events[0], Event::MonitorAdded(m) if m == "DP-3"));
    assert!(parse_event(String::from("")).unwrap().is_empty());
    assert!(parse_event(String::from("   \n  ")).unwrap().is_empty());
}
