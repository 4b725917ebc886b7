use netroute::route::{
    add_route, command_output, command_status, delete_default_gateway, delete_route,
    enable_ipv4_forwarding, flush_dns, gateway_from_trimmed, get_default_gateway, get_public_ip,
    get_route_gateway, parse_default_gateway, public_ip_output, route_listing, set_default_gateway, set_dns, CommandOutcome,
    NetError, Platform, RouteOp, RouteType,
};

fn words(v: &[&str]) -> Vec<String> {
    v.iter().map(|s| s.to_string()).collect()
}

fn outcome(success: bool, stdout: &str, stderr: &str) -> CommandOutcome {
    CommandOutcome { success, stdout: stdout.to_string(), stderr: stderr.to_string() }
}

#[test]
fn enable_ipv4_forwarding_test() {
    assert_eq!(
        enable_ipv4_forwarding(Platform::Linux),
        words(&["sysctl", "-w", "net.ipv4.ip_forward=1"])
    );
    assert_eq!(
        enable_ipv4_forwarding(Platform::Macos),
        words(&["sysctl", "-w", "net.inet.ip.forwarding=1"])
    );
}

#[test]
fn get_default_gateway_test() {
    let cmd = get_default_gateway(Platform::Linux);
    assert_eq!(cmd, words(&["bash", "-c", "ip -4 route list 0/0 | awk '{print $3}'"]));
    assert!(cmd[2].contains("0/0"));
    let mac = get_default_gateway(Platform::Macos);
    assert_eq!(mac, words(&["bash", "-c", "route -n get default | grep gateway | awk '{print $2}'"]));
}

#[test]
fn route_test() {
    let gw = "192.168.1.1";
    assert_eq!(
        add_route(Platform::Linux, RouteType::Host, "1.1.1.1", gw),
        words(&["route", "-n", "add", "-host", "1.1.1.1", "gw", "192.168.1.1"])
    );
    assert_eq!(
        delete_route(Platform::Linux, RouteType::Host, "1.1.1.1"),
        words(&["route", "-n", "del", "-host", "1.1.1.1"])
    );
    assert_eq!(
        add_route(Platform::Macos, RouteType::Host, "1.1.1.1", gw),
        words(&["route", "-n", "add", "-host", "1.1.1.1", "192.168.1.1"])
    );
    assert_eq!(
        delete_route(Platform::Macos, RouteType::Host, "1.1.1.1"),
        words(&["route", "-n", "delete", "-host", "1.1.1.1"])
    );
}

#[test]
fn set_dns_test() {
    assert_eq!(set_dns("8.8.8.8"), "nameserver 8.8.8.8\n");
}

#[test]
fn network_routes_use_net_flag() {
    assert_eq!(
        add_route(Platform::Linux, RouteType::Net, "10.0.0.0/8", "10.0.0.1"),
        words(&["route", "-n", "add", "-net", "10.0.0.0/8", "gw", "10.0.0.1"])
    );
    assert_eq!(
        delete_route(Platform::Macos, RouteType::Net, "10.0.0.0/8"),
        words(&["route", "-n", "delete", "-net", "10.0.0.0/8"])
    );
}

#[test]
fn default_gateway_commands() {
    assert_eq!(
        set_default_gateway(Platform::Linux, "10.0.0.1"),
        words(&["route", "-n", "add", "-net", "default", "gw", "10.0.0.1"])
    );
    assert_eq!(
        set_default_gateway(Platform::Macos, "10.0.0.1"),
        words(&["route", "-n", "add", "-net", "default", "10.0.0.1"])
    );
    assert_eq!(
        delete_default_gateway(Platform::Linux),
        words(&["route", "-n", "del", "-net", "default"])
    );
    assert_eq!(
        delete_default_gateway(Platform::Macos),
        words(&["route", "-n", "delete", "-net", "default"])
    );
}

#[test]
fn same_template_for_every_argument() {
    for p in [Platform::Linux, Platform::Macos] {
        for kind in [RouteType::Net, RouteType::Host] {
            let a = add_route(p, kind, "1.1.1.1", "192.168.1.1");
            let b = add_route(p, kind, "203.0.113.5", "10.0.0.1");
            assert_eq!(a.len(), b.len());
            for i in 0..a.len() {
                if i != 4 && i != a.len() - 1 {
                    assert_eq!(a[i], b[i]);
                }
            }
            let c = delete_route(p, kind, "1.1.1.1");
            let d = delete_route(p, kind, "203.0.113.5");
            assert_eq!(c[..4], d[..4]);
        }
    }
}

#[test]
fn platform_names() {
    assert_eq!(Platform::from_os("linux").unwrap(), Platform::Linux);
    assert_eq!(Platform::from_os("macos").unwrap(), Platform::Macos);
    assert!(matches!(Platform::from_os("windows"), Err(NetError::UnsupportedPlatform)));
    assert!(matches!(Platform::from_os(""), Err(NetError::UnsupportedPlatform)));
}

#[test]
fn gateway_output_is_trimmed() {
    let r = parse_default_gateway(&outcome(true, "192.168.1.1\n", ""));
    assert_eq!(r.unwrap(), "192.168.1.1");
    let r = parse_default_gateway(&outcome(true, "10.0.0.254  \r\n", ""));
    assert_eq!(r.unwrap(), "10.0.0.254");
}

#[test]
fn gateway_query_errors() {
    match parse_default_gateway(&outcome(false, "", "RTNETLINK answers: denied")) {
        Err(NetError::Query(e)) => assert_eq!(e, "RTNETLINK answers: denied"),
        other => panic!("unexpected {:?}", other),
    }
    assert!(matches!(parse_default_gateway(&outcome(true, " \n", "")), Err(NetError::Query(_))));
    assert!(matches!(parse_default_gateway(&outcome(true, "", "")), Err(NetError::Query(_))));
}

#[test]
fn gateway_from_trimmed_cases() {
    let none = String::new();
    assert_eq!(gateway_from_trimmed(true, "10.1.1.1".to_string(), &none).unwrap(), "10.1.1.1");
    assert!(matches!(gateway_from_trimmed(true, String::new(), &none), Err(NetError::Query(_))));
    assert!(matches!(
        gateway_from_trimmed(false, "10.1.1.1".to_string(), &none),
        Err(NetError::Query(_))
    ));
}

#[test]
fn command_outcomes() {
    assert!(command_status(&outcome(true, "", "")).is_ok());
    match command_status(&outcome(false, "", "exit status: 7")) {
        Err(NetError::Command(e)) => assert_eq!(e, "exit status: 7"),
        other => panic!("unexpected {:?}", other),
    }
    assert_eq!(command_output(&outcome(true, "done\n", "")).unwrap(), "done\n");
    assert!(matches!(command_output(&outcome(false, "", "denied")), Err(NetError::Command(_))));
    assert_eq!(public_ip_output(&outcome(true, "198.51.100.7", "")).unwrap(), "198.51.100.7");
    match public_ip_output(&outcome(false, "", "could not resolve host")) {
        Err(NetError::Network(e)) => assert_eq!(e, "could not resolve host"),
        other => panic!("unexpected {:?}", other),
    }
}

#[test]
fn auxiliary_commands() {
    assert_eq!(flush_dns(), words(&["bash", "-c", "sudo systemd-resolve --flush-caches"]));
    assert_eq!(get_public_ip(), words(&["curl", "ipecho.net/plain"]));
}

#[test]
fn route_op_commands() {
    let add = RouteOp::Add {
        kind: RouteType::Host,
        target: "203.0.113.5".to_string(),
        gateway: "192.168.1.1".to_string(),
    };
    assert_eq!(
        add.command(Platform::Linux),
        words(&["route", "-n", "add", "-host", "203.0.113.5", "gw", "192.168.1.1"])
    );
    let del = RouteOp::Delete { kind: RouteType::Net, target: "default".to_string() };
    assert_eq!(del.command(Platform::Macos), words(&["route", "-n", "delete", "-net", "default"]));
}

#[test]
fn route_listing_for_a_host() {
    assert_eq!(get_route_gateway("1.1.1.1"), words(&["bash", "-c", "ip -4 route list 1.1.1.1"]));
    assert_eq!(get_route_gateway("0/0"), words(&["bash", "-c", "ip -4 route list 0/0"]));
    let listed = route_listing(&outcome(true, "1.1.1.1 via 192.168.1.1 dev eth0 \n", "")).unwrap();
    assert_eq!(listed, "1.1.1.1 via 192.168.1.1 dev eth0");
    assert!(listed.contains("192.168.1.1"));
    assert_eq!(route_listing(&outcome(true, "", "")).unwrap(), "");
    assert!(matches!(route_listing(&outcome(false, "", "bad")), Err(NetError::Query(_))));
}
