use forwarder::backoff::calculate_backoff;
use forwarder::session::{
    identifying_mac_addresses, relays, select_relay, ForwarderState, Orchestrator,
    ReconnectAction, ReconnectState, SessionPlan, FORWARD_JP_SERVER, FORWARD_SERVER,
};
use forwarder::reporter::{Country, ForwardEntry, ForwardInfo};
use mac_address::MacAddressIterator;

const NIL_MAC_ADDRESS: &str = "00:00:00:00:00:00";

fn info() -> ForwardInfo {
    ForwardInfo {
        client_country: "CN".to_string(),
        app_version: "0.1.0".to_string(),
        hostname: "host".to_string(),
        access_id: "".to_string(),
        mac_address: "AA:BB:CC:DD:EE:FF".to_string(),
        forward_entries: vec![ForwardEntry {
            local_host: "localhost".to_string(),
            local_port: 22,
            remote_port: 1000,
        }],
        all_mac_addresses: vec!["AA:BB:CC:DD:EE:FF".to_string()],
    }
}

fn country(code: &str) -> Option<Country> {
    Some(Country { ip: "1.2.3.4".to_string(), country: code.to_string() })
}

#[test]
fn country_selects_relay() {
    let (relay, code) = select_relay(&country("US"));
    assert_eq!(relay, FORWARD_JP_SERVER);
    assert_eq!(code, "US");
    let (relay, code) = select_relay(&country("CN"));
    assert_eq!(relay, FORWARD_SERVER);
    assert_eq!(code, "CN");
    let (relay, code) = select_relay(&None);
    assert_eq!(relay, FORWARD_SERVER);
    assert_eq!(code, "CN");
}

#[test]
fn apply_country_updates_state() {
    let mut s = ForwarderState::new(info(), FORWARD_SERVER.to_string());
    s.apply_country(&country("JP"));
    assert_eq!(s.server_address, FORWARD_JP_SERVER);
    assert_eq!(s.forward_info.client_country, "JP");
    s.apply_country(&None);
    assert_eq!(s.server_address, FORWARD_SERVER);
    assert_eq!(s.forward_info.client_country, "CN");
}

#[test]
fn relays_in_probe_order() {
    assert_eq!(relays(), vec![FORWARD_SERVER.to_string(), FORWARD_JP_SERVER.to_string()]);
}

#[test]
fn sessions_connect_ssh_then_console() {
    let mut plan = SessionPlan::new();
    assert_eq!(plan.next_service(), Some(22));
    plan.record(Some(4001));
    assert_eq!(plan.next_service(), Some(9090));
    plan.record(Some(4002));
    assert_eq!(plan.next_service(), None);
    let mut s = ForwarderState::new(info(), FORWARD_SERVER.to_string());
    assert!(s.apply_sessions(&plan));
    let e = &s.forward_info.forward_entries;
    assert_eq!(e.len(), 2);
    assert_eq!((e[0].local_host.as_str(), e[0].local_port, e[0].remote_port), ("localhost", 22, 4001));
    assert_eq!((e[1].local_host.as_str(), e[1].local_port, e[1].remote_port), ("localhost", 9090, 4002));
}

#[test]
fn second_session_failure_keeps_entries() {
    let mut plan = SessionPlan::new();
    plan.record(Some(4001));
    plan.record(None);
    assert_eq!(plan.next_service(), None);
    let mut s = ForwarderState::new(info(), FORWARD_SERVER.to_string());
    assert!(!s.apply_sessions(&plan));
    assert_eq!(s.forward_info.forward_entries.len(), 1);
    assert_eq!(s.forward_info.forward_entries[0].remote_port, 1000);
}

#[test]
fn first_session_failure_stops_plan() {
    let mut plan = SessionPlan::new();
    plan.record(None);
    assert_eq!(plan.next_service(), None);
    let mut s = ForwarderState::new(info(), FORWARD_SERVER.to_string());
    assert!(!s.apply_sessions(&plan));
    assert_eq!(s.forward_info.forward_entries[0].remote_port, 1000);
}

#[test]
fn reconnect_after_failures() {
    let n = 3u32;
    let mut r = ReconnectState::new();
    let mut attempts = 0;
    let mut total = 0u64;
    let mut lower = 0u64;
    let mut upper = 0u64;
    loop {
        attempts += 1;
        let ok = attempts > n;
        match r.record_attempt(ok) {
            ReconnectAction::Done => break,
            ReconnectAction::Retry { delay_millis } => {
                let base = std::cmp::min(300, 2 * 2u64.pow(r.consecutive_failures));
                assert!(delay_millis >= 800 * base && delay_millis <= 1200 * base);
                assert!(delay_millis <= 300_000);
                total += delay_millis;
                lower += 800 * base;
                upper += 1200 * base;
            }
        }
    }
    assert_eq!(attempts, n + 1);
    assert_eq!(r.consecutive_failures, 0);
    assert!(total >= lower && total <= upper);
    assert!(lower == 800 * (4 + 8 + 16));
}

#[test]
fn reconnect_count_saturates() {
    let mut r = ReconnectState { consecutive_failures: u32::MAX };
    match r.record_attempt(false) {
        ReconnectAction::Retry { delay_millis } => assert!((240_000..=300_000).contains(&delay_millis)),
        ReconnectAction::Done => panic!("a failure must be retried"),
    }
    assert_eq!(r.consecutive_failures, u32::MAX);
}

#[test]
fn reconnect_failure_counts_up() {
    let mut r = ReconnectState::new();
    assert!(matches!(r.record_attempt(false), ReconnectAction::Retry { .. }));
    assert_eq!(r.consecutive_failures, 1);
    assert!(calculate_backoff(r.consecutive_failures) >= 3200);
    assert_eq!(r.record_attempt(true), ReconnectAction::Done);
    assert_eq!(r.consecutive_failures, 0);
}

#[test]
fn orchestrator_recovers_on_down_then_up() {
    let mut o = Orchestrator::new();
    assert!(!o.on_reachability(true));
    assert!(!o.on_reachability(false));
    assert!(o.was_network_down);
    assert!(!o.network_up);
    assert!(!o.on_reachability(false));
    assert!(o.on_reachability(true));
    assert!(!o.was_network_down);
    assert!(o.network_up);
}

#[test]
fn mac_filter_drops_nil_address() {
    let all = vec![
        "AA:BB:CC:DD:EE:FF".to_string(),
        NIL_MAC_ADDRESS.to_string(),
        "11:22:33:44:55:66".to_string(),
    ];
    assert_eq!(
        identifying_mac_addresses(&all),
        vec!["AA:BB:CC:DD:EE:FF".to_string(), "11:22:33:44:55:66".to_string()]
    );
    assert!(identifying_mac_addresses(&vec![]).is_empty());
}

#[test]
fn get_all_mac_addresses() {
    let all: Vec<String> = match MacAddressIterator::new() {
        Ok(iter) => iter.map(|ma| ma.to_string()).collect(),
        Err(_) => Vec::new(),
    };
    let all_mac_addresses = identifying_mac_addresses(&all);
    println!("mac address:{:?}", all_mac_addresses);
    assert!(all_mac_addresses.iter().all(|a| a != NIL_MAC_ADDRESS));
}
