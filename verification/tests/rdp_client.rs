use rdp_man::db::{find_connection, ConnectionProfile};
use rdp_man::rdp::{client_command, config_for_connection, ClientPlatform, RdpConfig, SessionInfo, SessionManager};

fn profile(id: i64, host: &str) -> ConnectionProfile {
    ConnectionProfile {
        id,
        display_name: format!("srv-{}", id),
        hostname: host.to_string(),
        port: 3389,
        username: "admin".to_string(),
        password: "pw".to_string(),
    }
}

fn launch(m: &mut SessionManager, cfg: RdpConfig, launched: Result<u32, String>) -> Result<SessionInfo, String> {
    let command = client_command(&cfg, ClientPlatform::Other);
    m.open(cfg, ClientPlatform::Other, &command, launched)
}

fn config(id: i64, host: &str) -> RdpConfig {
    RdpConfig {
        connection_id: id,
        hostname: host.to_string(),
        port: 3389,
        username: "admin".to_string(),
        password: "pw".to_string(),
    }
}

#[test]
fn windows_command_uses_mstsc() {
    let c = client_command(&config(1, "10.0.0.5"), ClientPlatform::Windows);
    assert_eq!(c.program, "mstsc.exe");
    assert_eq!(c.args, vec!["/v:10.0.0.5:3389".to_string(), "/u:admin".to_string()]);
}

#[test]
fn macos_command_uses_xfreerdp() {
    let c = client_command(&config(1, "host"), ClientPlatform::MacOs);
    assert_eq!(c.program, "xfreerdp");
    assert_eq!(
        c.args,
        vec![
            "/v:host:3389",
            "/u:admin",
            "/p:pw",
            "/cert:ignore",
            "/dynamic-resolution",
            "/clipboard",
            "/audio-mode:0",
        ]
    );
}

#[test]
fn other_command_uses_xfreerdp3_with_drive() {
    let mut cfg = config(1, "host");
    cfg.port = -5;
    let c = client_command(&cfg, ClientPlatform::Other);
    assert_eq!(c.program, "xfreerdp3");
    assert_eq!(
        c.args,
        vec![
            "/v:host:-5",
            "/u:admin",
            "/p:pw",
            "/cert:ignore",
            "/dynamic-resolution",
            "/clipboard",
            "/audio-mode:0",
            "/drive:home,/home",
        ]
    );
}

#[test]
fn open_gives_increasing_ids_from_one() {
    let mut m = SessionManager::new();
    assert_eq!(m.next_session_id(), 1);
    let a = launch(&mut m, config(7, "a"), Ok(100)).unwrap();
    let b = launch(&mut m, config(8, "b"), Ok(200)).unwrap();
    assert_eq!(a.session_id, 1);
    assert_eq!(b.session_id, 2);
    assert_eq!(a.connection_id, 7);
    assert_eq!(a.hostname, "a");
    assert_eq!(a.pid, 100);
    assert_eq!(a.status, "connected");
    assert_eq!(m.next_session_id(), 3);
}

#[test]
fn failed_launch_is_reported_and_not_recorded() {
    let mut m = SessionManager::new();
    let e = launch(&mut m, config(7, "a"), Err("No such file or directory (os error 2)".to_string())).unwrap_err();
    assert_eq!(
        e,
        "Failed to launch RDP client: No such file or directory (os error 2). Is xfreerdp3/xfreerdp installed?"
    );
    assert_eq!(m.next_session_id(), 1);
    assert!(m.list_active(&vec![]).is_empty());
}

#[test]
fn close_removes_once() {
    let mut m = SessionManager::new();
    let a = launch(&mut m, config(7, "a"), Ok(1)).unwrap();
    assert_eq!(m.close(a.session_id), Ok(()));
    assert_eq!(m.close(a.session_id), Err("Session not found".to_string()));
    assert_eq!(m.close(99), Err("Session not found".to_string()));
    let b = launch(&mut m, config(7, "a"), Ok(1)).unwrap();
    assert_eq!(b.session_id, 2);
}

#[test]
fn list_active_drops_exited_clients() {
    let mut m = SessionManager::new();
    launch(&mut m, config(1, "a"), Ok(11)).unwrap();
    launch(&mut m, config(2, "b"), Ok(22)).unwrap();
    launch(&mut m, config(3, "c"), Ok(33)).unwrap();
    let mut listed = m.list_active(&vec![2, 42]);
    listed.sort_by_key(|s| s.session_id);
    assert_eq!(listed.len(), 2);
    assert_eq!((listed[0].session_id, listed[0].pid, listed[0].hostname.as_str()), (1, 11, "a"));
    assert_eq!((listed[1].session_id, listed[1].pid, listed[1].hostname.as_str()), (3, 33, "c"));
    assert_eq!(m.close(2), Err("Session not found".to_string()));
    assert_eq!(m.list_active(&vec![]).len(), 2);
}

#[test]
fn close_all_forgets_everything_but_keeps_counting() {
    let mut m = SessionManager::new();
    launch(&mut m, config(1, "a"), Ok(11)).unwrap();
    launch(&mut m, config(2, "b"), Ok(22)).unwrap();
    m.close_all();
    assert!(m.list_active(&vec![]).is_empty());
    assert_eq!(launch(&mut m, config(3, "c"), Ok(33)).unwrap().session_id, 3);
}

#[test]
fn open_then_close_restores_the_list() {
    let mut m = SessionManager::new();
    launch(&mut m, config(1, "a"), Ok(11)).unwrap();
    let before = m.list_active(&vec![]).len();
    let s = launch(&mut m, config(2, "b"), Ok(22)).unwrap();
    m.close(s.session_id).unwrap();
    let after = m.list_active(&vec![]);
    assert_eq!(after.len(), before);
    assert_eq!(after[0].session_id, 1);
}

#[test]
fn find_connection_takes_the_first_match() {
    let profiles = vec![profile(1, "a"), profile(2, "b"), profile(2, "c")];
    assert_eq!(find_connection(&profiles, 2).unwrap().hostname, "b");
    assert!(find_connection(&profiles, 3).is_none());
    assert!(find_connection(&vec![], 1).is_none());
}

#[test]
fn config_for_connection_copies_the_profile() {
    let mut p = profile(5, "web-01");
    p.port = 3390;
    let profiles = vec![profile(1, "x"), p];
    let c = config_for_connection(&profiles, 5).unwrap();
    assert_eq!(c.connection_id, 5);
    assert_eq!(c.hostname, "web-01");
    assert_eq!(c.port, 3390);
    assert_eq!(c.username, "admin");
    assert_eq!(c.password, "pw");
    assert_eq!(config_for_connection(&profiles, 6).unwrap_err(), "Connection not found");
}

#[test]
fn linux_launch_scenario() {
    let cfg = RdpConfig {
        connection_id: 1,
        hostname: "10.0.1.1".to_string(),
        port: 3389,
        username: "admin".to_string(),
        password: "pw".to_string(),
    };
    let command = client_command(&cfg, ClientPlatform::Other);
    assert_eq!(command.program, "xfreerdp3");
    assert_eq!(
        command.args,
        vec![
            "/v:10.0.1.1:3389",
            "/u:admin",
            "/p:pw",
            "/cert:ignore",
            "/dynamic-resolution",
            "/clipboard",
            "/audio-mode:0",
            "/drive:home,/home",
        ]
    );
    let mut m = SessionManager::new();
    let info = m.open(cfg, ClientPlatform::Other, &command, Ok(4242)).unwrap();
    assert_eq!(info.connection_id, 1);
    assert_eq!(info.hostname, "10.0.1.1");
    assert_eq!(info.status, "connected");
    assert_eq!(info.pid, 4242);
}

#[test]
fn listing_twice_without_exits_changes_nothing() {
    let mut m = SessionManager::new();
    launch(&mut m, config(1, "a"), Ok(11)).unwrap();
    launch(&mut m, config(2, "b"), Ok(22)).unwrap();
    let mut first: Vec<u32> = m.list_active(&vec![]).iter().map(|s| s.session_id).collect();
    let mut second: Vec<u32> = m.list_active(&vec![]).iter().map(|s| s.session_id).collect();
    first.sort();
    second.sort();
    assert_eq!(first, second);
    assert_eq!(first, vec![1, 2]);
}
