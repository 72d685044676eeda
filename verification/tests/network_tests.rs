use cameraftp::network::{
    format_ipv4_ftp_url, format_ipv4_socket_addr, normalize_ipv4_host, IpAddress, NetworkInterface,
    NetworkManager,
};

fn ip(s: &str) -> IpAddress {
    IpAddress::from_text(s)
}

#[test]
fn link_local_169_254_x_x_detected() {
    assert!(NetworkManager::is_link_local(&ip("169.254.1.1")));
}

#[test]
fn normal_ip_not_link_local() {
    assert!(!NetworkManager::is_link_local(&ip("192.168.1.1")));
}

#[test]
fn ipv6_not_link_local() {
    assert!(!NetworkManager::is_link_local(&ip("::1")));
}

#[test]
fn loopback_not_link_local() {
    assert!(!NetworkManager::is_link_local(&ip("127.0.0.1")));
}

#[test]
fn private_lan_10_x_detected() {
    assert!(NetworkManager::is_private_lan(&ip("10.0.0.5")));
}

#[test]
fn private_lan_172_16_to_31_detected() {
    assert!(NetworkManager::is_private_lan(&ip("172.16.0.1")));
    assert!(NetworkManager::is_private_lan(&ip("172.31.255.254")));
}

#[test]
fn private_lan_172_outside_range_not_detected() {
    assert!(!NetworkManager::is_private_lan(&ip("172.32.0.1")));
    assert!(!NetworkManager::is_private_lan(&ip("172.15.0.1")));
}

#[test]
fn private_lan_192_168_detected() {
    assert!(NetworkManager::is_private_lan(&ip("192.168.1.100")));
}

#[test]
fn tun_fake_ip_not_private_lan() {
    assert!(!NetworkManager::is_private_lan(&ip("198.18.0.1")));
}

#[test]
fn public_ip_not_private_lan() {
    assert!(!NetworkManager::is_private_lan(&ip("8.8.8.8")));
}

#[test]
fn vmware_detected_as_virtual() {
    assert!(NetworkManager::is_virtual_interface("VMware Network Adapter"));
}

#[test]
fn vmnet_detected_as_virtual() {
    assert!(NetworkManager::is_virtual_interface("vmnet8"));
}

#[test]
fn virtualbox_detected_as_virtual() {
    assert!(NetworkManager::is_virtual_interface("VirtualBox Host-Only"));
}

#[test]
fn docker_detected_as_virtual() {
    assert!(NetworkManager::is_virtual_interface("docker0"));
}

#[test]
fn wsl_detected_as_virtual() {
    assert!(NetworkManager::is_virtual_interface("WSL (Hyper-V)"));
}

#[test]
fn vpn_detected_as_virtual() {
    assert!(NetworkManager::is_virtual_interface("VPN Connection"));
}

#[test]
fn tun_detected_as_virtual() {
    assert!(NetworkManager::is_virtual_interface("tun0"));
}

#[test]
fn mihomo_detected_as_virtual() {
    assert!(NetworkManager::is_virtual_interface("Mihomo"));
}

#[test]
fn clash_detected_as_virtual() {
    assert!(NetworkManager::is_virtual_interface("Clash"));
}

#[test]
fn tailscale_detected_as_virtual() {
    assert!(NetworkManager::is_virtual_interface("tailscale0"));
}

#[test]
fn zerotier_detected_as_virtual() {
    assert!(NetworkManager::is_virtual_interface("ZeroTier [zcqrh5"));
}

#[test]
fn wireguard_detected_as_virtual() {
    assert!(NetworkManager::is_virtual_interface("WireGuard Tunnel"));
}

#[test]
fn real_ethernet_not_virtual() {
    assert!(!NetworkManager::is_virtual_interface("Ethernet"));
}

#[test]
fn real_wifi_not_virtual() {
    assert!(!NetworkManager::is_virtual_interface("Wi-Fi"));
}

#[test]
fn virtual_detection_case_insensitive() {
    assert!(NetworkManager::is_virtual_interface("DOCKER"));
    assert!(NetworkManager::is_virtual_interface("Vmware"));
    assert!(NetworkManager::is_virtual_interface("Wsl"));
}

#[test]
fn wlan_detected_as_wifi() {
    assert!(NetworkManager::is_wifi_interface("WLAN"));
}

#[test]
fn wi_fi_detected_as_wifi() {
    assert!(NetworkManager::is_wifi_interface("Wi-Fi"));
}

#[test]
fn wifi_detected_as_wifi() {
    assert!(NetworkManager::is_wifi_interface("wifi0"));
}

#[test]
fn wl_prefix_detected_as_wifi() {
    assert!(NetworkManager::is_wifi_interface("wlp3s0"));
}

#[test]
fn wireless_detected_as_wifi() {
    assert!(NetworkManager::is_wifi_interface("wireless0"));
}

#[test]
fn ethernet_not_wifi() {
    assert!(!NetworkManager::is_wifi_interface("Ethernet"));
}

#[test]
fn eth_prefix_detected_as_ethernet() {
    assert!(NetworkManager::is_ethernet_interface("eth0"));
}

#[test]
fn en_prefix_detected_as_ethernet() {
    assert!(NetworkManager::is_ethernet_interface("en0"));
}

#[test]
fn ethernet_keyword_detected() {
    assert!(NetworkManager::is_ethernet_interface("Ethernet"));
}

#[test]
fn lan_keyword_detected() {
    assert!(NetworkManager::is_ethernet_interface("LAN Connection"));
}

#[test]
fn virtual_ethernet_excluded() {
    assert!(!NetworkManager::is_ethernet_interface("veth123456"));
}

#[test]
fn wifi_not_ethernet() {
    assert!(!NetworkManager::is_ethernet_interface("wlan0"));
}

#[test]
fn recommended_ip_does_not_panic() {
    let _ = NetworkManager::recommended_ip();
}

#[test]
fn iftype_loopback_is_virtual() {
    assert!(NetworkManager::is_virtual_by_iftype(24));
}

#[test]
fn iftype_prop_virtual_is_virtual() {
    assert!(NetworkManager::is_virtual_by_iftype(53));
}

#[test]
fn iftype_tunnel_is_virtual() {
    assert!(NetworkManager::is_virtual_by_iftype(131));
}

#[test]
fn iftype_ethernet_not_virtual() {
    assert!(!NetworkManager::is_virtual_by_iftype(6));
}

#[test]
fn iftype_wifi_not_virtual() {
    assert!(!NetworkManager::is_virtual_by_iftype(71));
}

#[test]
fn iftype_other_not_virtual() {
    assert!(!NetworkManager::is_virtual_by_iftype(1));
}

#[test]
fn normalize_ipv4_helpers_enforce_ipv4_contract() {
    assert_eq!(normalize_ipv4_host("192.168.1.8"), "192.168.1.8");
    assert_eq!(normalize_ipv4_host("::1"), "127.0.0.1");
    assert_eq!(format_ipv4_socket_addr("::1", 2121), "127.0.0.1:2121");
    assert_eq!(format_ipv4_ftp_url("::1", 2121), "ftp://127.0.0.1:2121");
}

#[test]
fn ipv4_parsing_rejects_leading_zeros_and_large_octets() {
    assert_eq!(normalize_ipv4_host("010.0.0.1"), "127.0.0.1");
    assert_eq!(normalize_ipv4_host("256.0.0.1"), "127.0.0.1");
    assert_eq!(normalize_ipv4_host("1.2.3"), "127.0.0.1");
    assert_eq!(normalize_ipv4_host("1.2.3.4.5"), "127.0.0.1");
    assert_eq!(normalize_ipv4_host("0.0.0.0"), "0.0.0.0");
    assert_eq!(normalize_ipv4_host("255.255.255.255"), "255.255.255.255");
}

#[test]
fn normalization_is_idempotent_on_examples() {
    for h in ["10.1.2.3", "::1", "garbage", "1.1.1.1"] {
        let once = normalize_ipv4_host(h);
        assert_eq!(normalize_ipv4_host(&once), once);
    }
}

fn iface(name: &str, ip: &str, wifi: bool, eth: bool, private: bool) -> NetworkInterface {
    NetworkInterface {
        name: name.to_string(),
        ip: ip.to_string(),
        is_wifi: wifi,
        is_ethernet: eth,
        is_private_lan: private,
        if_type: None,
    }
}

#[test]
fn recommended_prefers_private_wifi_then_private_ethernet() {
    let list = vec![
        iface("tun", "198.18.0.1", false, false, false),
        iface("eth0", "192.168.1.2", false, true, true),
        iface("wlan0", "192.168.1.3", true, false, true),
    ];
    assert_eq!(NetworkManager::choose_recommended(&list), Some("192.168.1.3".to_string()));
    let list = vec![
        iface("x", "198.18.0.1", true, false, false),
        iface("eth0", "10.0.0.2", false, true, true),
    ];
    assert_eq!(NetworkManager::choose_recommended(&list), Some("10.0.0.2".to_string()));
    let list = vec![iface("a", "8.8.8.8", false, false, false)];
    assert_eq!(NetworkManager::choose_recommended(&list), Some("8.8.8.8".to_string()));
    assert_eq!(NetworkManager::choose_recommended(&vec![]), None);
}

#[test]
fn interfaces_skip_loopback_link_local_virtual_and_ipv6() {
    let listed = Ok(vec![
        ("lo".to_string(), "127.0.0.1".to_string()),
        ("eth0".to_string(), "169.254.3.4".to_string()),
        ("docker0".to_string(), "172.17.0.1".to_string()),
        ("eth1".to_string(), "fe80::1".to_string()),
        ("wlan0".to_string(), "192.168.0.7".to_string()),
    ]);
    let ifaces = NetworkManager::interfaces_from_list(listed);
    assert_eq!(ifaces.len(), 1);
    assert_eq!(ifaces[0].name, "wlan0");
    assert!(ifaces[0].is_wifi && ifaces[0].is_private_lan && !ifaces[0].is_ethernet);
    assert!(NetworkManager::interfaces_from_list(Err("boom".to_string())).is_empty());
}

#[test]
fn fallback_interface_requires_usable_ipv4() {
    let f = NetworkManager::fallback_interface(Ok("10.0.0.9".to_string())).unwrap();
    assert_eq!(f.name, "primary");
    assert!(f.is_ethernet && f.is_private_lan);
    assert!(NetworkManager::fallback_interface(Ok("127.0.0.1".to_string())).is_none());
    assert!(NetworkManager::fallback_interface(Ok("169.254.0.1".to_string())).is_none());
    assert!(NetworkManager::fallback_interface(Err("x".to_string())).is_none());
}

#[test]
fn find_available_port_scans_upwards() {
    assert_eq!(NetworkManager::find_available_port(1024, |p| p >= 1030), Some(1030));
    assert_eq!(NetworkManager::find_available_port(65535, |_| false), None);
    assert_eq!(NetworkManager::find_available_port(65530, |p| p == 65535), Some(65535));
}

#[test]
fn active_adapter_filter_keeps_connected_non_virtual_adapters() {
    let ifaces = vec![iface("Ethernet", "192.168.1.5", false, true, true), iface("Unplugged", "192.168.2.5", false, false, true), iface("Tunnel", "10.0.0.2", false, false, true)];
    let active = vec![("Ethernet".to_string(), 6u32), ("Tunnel".to_string(), 131u32)];
    let kept = NetworkManager::filter_by_active_adapters(ifaces, &active);
    assert_eq!(kept.len(), 1);
    assert_eq!(kept[0].name, "Ethernet");
    assert_eq!(kept[0].ip, "192.168.1.5");
    assert_eq!(kept[0].if_type, Some(6));
}

#[test]
fn active_adapter_filter_without_information_keeps_everything() {
    let ifaces = vec![iface("Ethernet", "192.168.1.5", false, true, true), iface("Wi-Fi", "192.168.1.6", true, false, true)];
    let kept = NetworkManager::filter_by_active_adapters(ifaces.clone(), &Vec::new());
    assert_eq!(kept, ifaces);
}

#[test]
fn active_adapter_filter_uses_the_last_type_reported_for_a_name() {
    let ifaces = vec![iface("Wi-Fi", "192.168.1.6", true, false, true)];
    let active = vec![("Wi-Fi".to_string(), 53u32), ("Wi-Fi".to_string(), 71u32)];
    let kept = NetworkManager::filter_by_active_adapters(ifaces, &active);
    assert_eq!(kept.len(), 1);
    assert_eq!(kept[0].if_type, Some(71));
}

fn entries(list: &[(&str, &str)]) -> Result<Vec<(String, String)>, String> {
    Ok(list.iter().map(|(n, i)| (n.to_string(), i.to_string())).collect())
}

#[test]
fn recommend_from_prefers_private_wifi_among_listed_adapters() {
    let listed = entries(&[("eth0", "192.168.1.5"), ("wlan0", "192.168.1.9"), ("docker0", "172.17.0.1")]);
    let r = NetworkManager::recommend_from(listed, &Vec::new(), Ok("10.0.0.3".to_string()));
    assert_eq!(r, Some("192.168.1.9".to_string()));
}

#[test]
fn recommend_from_uses_primary_address_only_when_no_adapter_qualifies() {
    let listed = entries(&[("lo", "127.0.0.1"), ("eth0", "169.254.3.4")]);
    assert_eq!(NetworkManager::recommend_from(listed, &Vec::new(), Ok("10.0.0.3".to_string())), Some("10.0.0.3".to_string()));
    assert_eq!(NetworkManager::recommend_from(Err("no adapters".to_string()), &Vec::new(), Ok("127.0.0.1".to_string())), None);
    assert_eq!(NetworkManager::recommend_from(Err("no adapters".to_string()), &Vec::new(), Ok("169.254.1.1".to_string())), None);
    assert_eq!(NetworkManager::recommend_from(Err("no adapters".to_string()), &Vec::new(), Err("none".to_string())), None);
}

#[test]
fn recommend_from_applies_the_connected_adapter_filter() {
    let listed = entries(&[("wlan0", "192.168.1.9"), ("eth0", "192.168.1.5")]);
    // the Wi-Fi adapter is disconnected: only the wired one is kept
    let active = vec![("eth0".to_string(), 6u32)];
    assert_eq!(NetworkManager::recommend_from(listed, &active, Err(String::new())), Some("192.168.1.5".to_string()));
    // every listed adapter filtered out: the primary address is used
    let listed = entries(&[("eth0", "192.168.1.5")]);
    let active = vec![("eth0".to_string(), 131u32)];
    assert_eq!(
        NetworkManager::recommend_from(listed, &active, Ok("10.0.0.3".to_string())),
        Some("10.0.0.3".to_string())
    );
}
