//! IPv4 address text handling and the choice of the address that the FTP
//! server advertises among the machine's network interfaces.
use vstd::prelude::*;
use crate::ftp::str_eq;
use crate::text::{
    all_digits, chars_of, contains_any, contains_any_keyword, decimal, digits_value,
    format_decimal, is_digit, to_lowercase, unicode_lowercase,
};

verus! {

// ---------------------------------------------------------------------------
// IPv4 text
// ---------------------------------------------------------------------------

/// `s` cut at every occurrence of `c` (`str::split(c)`).
pub open spec fn split_on(s: Seq<char>, c: char) -> Seq<Seq<char>>
    decreases s.len(),
{
    if s.len() == 0 {
        seq![Seq::<char>::empty()]
    } else if s.last() == c {
        split_on(s.drop_last(), c).push(Seq::<char>::empty())
    } else {
        let p = split_on(s.drop_last(), c);
        p.update(p.len() - 1, p[p.len() - 1].push(s.last()))
    }
}

proof fn lemma_split_on_nonempty(s: Seq<char>, c: char)
    ensures
        split_on(s, c).len() >= 1,
    decreases s.len(),
{
    if s.len() > 0 {
        lemma_split_on_nonempty(s.drop_last(), c);
    }
}

/// One dotted-quad component as `Ipv4Addr` parsing accepts it: one to three
/// digits, no leading zero unless the component is exactly `0`, value at most 255.
pub open spec fn octet_value(p: Seq<char>) -> Option<u8> {
    if 1 <= p.len() <= 3 && all_digits(p) && !(p.len() > 1 && p[0] == '0') && digits_value(p) <= 255 {
        Some(digits_value(p) as u8)
    } else {
        None
    }
}

/// The four octets of a dotted-quad IPv4 address text (`str::parse::<Ipv4Addr>`).
pub open spec fn parse_ipv4_spec(s: Seq<char>) -> Option<[u8; 4]> {
    let parts = split_on(s, '.');
    if parts.len() == 4 && octet_value(parts[0]) is Some && octet_value(parts[1]) is Some
        && octet_value(parts[2]) is Some && octet_value(parts[3]) is Some {
        Some(
            [
                octet_value(parts[0])->0,
                octet_value(parts[1])->0,
                octet_value(parts[2])->0,
                octet_value(parts[3])->0,
            ],
        )
    } else {
        None
    }
}

/// Dotted-quad rendering of four octets (`Ipv4Addr`'s `Display`).
pub open spec fn ipv4_text(o: [u8; 4]) -> Seq<char> {
    decimal(o[0] as nat) + "."@ + decimal(o[1] as nat) + "."@ + decimal(o[2] as nat) + "."@
        + decimal(o[3] as nat)
}

/// Splits `s` at every `c`.
pub fn split_chars(s: &[char], c: char) -> (r: Vec<Vec<char>>)
    ensures
        r@.map_values(|v: Vec<char>| v@) == split_on(s@, c),
{
    let mut done: Vec<Vec<char>> = Vec::new();
    let mut current: Vec<char> = Vec::new();
    let mut i: usize = 0;
    proof {
        assert(s@.subrange(0, 0) =~= Seq::<char>::empty());
        assert(done@.map_values(|v: Vec<char>| v@).push(current@) =~= split_on(Seq::<char>::empty(), c));
    }
    while i < s.len()
        invariant
            i <= s@.len(),
            done@.map_values(|v: Vec<char>| v@).push(current@) == split_on(s@.subrange(0, i as int), c),
        decreases s@.len() - i,
    {
        let ghost prefix = s@.subrange(0, i as int);
        proof {
            assert(s@.subrange(0, i + 1).drop_last() =~= prefix);
        }
        if s[i] == c {
            let finished = current;
            done.push(finished);
            current = Vec::new();
            proof {
                assert(done@.map_values(|v: Vec<char>| v@).push(current@) =~= split_on(prefix, c).push(
                    Seq::<char>::empty(),
                ));
            }
        } else {
            current.push(s[i]);
            proof {
                let p = split_on(prefix, c);
                lemma_split_on_nonempty(prefix, c);
                assert(done@.map_values(|v: Vec<char>| v@).push(current@) =~= p.update(
                    p.len() - 1,
                    p[p.len() - 1].push(s@[i as int]),
                ));
            }
        }
        i = i + 1;
    }
    let ghost before = done@.map_values(|v: Vec<char>| v@);
    done.push(current);
    proof {
        assert(s@.subrange(0, s@.len() as int) =~= s@);
        assert(done@.map_values(|v: Vec<char>| v@) =~= before.push(current@));
    }
    done
}

/// Reads one dotted-quad component.
pub fn parse_octet(p: &[char]) -> (r: Option<u8>)
    ensures
        r == octet_value(p@),
{
    let n = p.len();
    if n < 1 || n > 3 {
        return None;
    }
    if n > 1 && p[0] == '0' {
        return None;
    }
    let mut value: u32 = 0;
    let mut i: usize = 0;
    while i < n
        invariant
            n == p@.len(),
            1 <= n <= 3,
            i <= n,
            all_digits(p@.subrange(0, i as int)),
            value == digits_value(p@.subrange(0, i as int)),
            i == 0 ==> value == 0,
            i == 1 ==> value < 10,
            i == 2 ==> value < 100,
            i == 3 ==> value < 1000,
        decreases n - i,
    {
        let c = p[i];
        if !('0' <= c && c <= '9') {
            proof {
                assert(!is_digit(p@[i as int]));
            }
            return None;
        }
        proof {
            assert(p@.subrange(0, i + 1).drop_last() =~= p@.subrange(0, i as int));
            if i == 0 {
                assert(p@.subrange(0, 0) =~= Seq::<char>::empty());
            }
        }
        value = value * 10 + (c as u32 - '0' as u32);
        i = i + 1;
    }
    proof {
        assert(p@.subrange(0, n as int) =~= p@);
    }
    if value > 255 {
        None
    } else {
        Some(value as u8)
    }
}

/// Parses a dotted-quad IPv4 address.
pub fn parse_ipv4(s: &[char]) -> (r: Option<[u8; 4]>)
    ensures
        r == parse_ipv4_spec(s@),
{
    let parts = split_chars(s, '.');
    let ghost views = parts@.map_values(|v: Vec<char>| v@);
    if parts.len() != 4 {
        return None;
    }
    proof {
        assert(views[0] == parts@[0]@ && views[1] == parts@[1]@ && views[2] == parts@[2]@
            && views[3] == parts@[3]@);
    }
    let a = parse_octet(parts[0].as_slice());
    let b = parse_octet(parts[1].as_slice());
    let c = parse_octet(parts[2].as_slice());
    let d = parse_octet(parts[3].as_slice());
    match (a, b, c, d) {
        (Some(a), Some(b), Some(c), Some(d)) => Some([a, b, c, d]),
        _ => None,
    }
}

/// Renders four octets as dotted-quad text.
pub fn format_ipv4(o: [u8; 4]) -> (r: String)
    ensures
        r@ == ipv4_text(o),
{
    let s = format_decimal(o[0] as u64);
    let s = s.concat(".");
    let s = s.concat(format_decimal(o[1] as u64).as_str());
    let s = s.concat(".");
    let s = s.concat(format_decimal(o[2] as u64).as_str());
    let s = s.concat(".");
    let s = s.concat(format_decimal(o[3] as u64).as_str());
    s
}

/// The canonical IPv4 text of `host`, or the loopback address when `host`
/// is not an IPv4 address.
pub open spec fn spec_normalize_ipv4_host(host: Seq<char>) -> Seq<char> {
    match parse_ipv4_spec(host) {
        Some(o) => ipv4_text(o),
        None => "127.0.0.1"@,
    }
}

/// Normalises a host to IPv4 text, falling back to `127.0.0.1`.
pub fn normalize_ipv4_host(host: &str) -> (r: String)
    ensures
        r@ == spec_normalize_ipv4_host(host@),
{
    let h = chars_of(host);
    match parse_ipv4(h.as_slice()) {
        Some(o) => format_ipv4(o),
        None => String::from_str("127.0.0.1"),
    }
}

/// `host:port` with the host normalised to IPv4.
pub fn format_ipv4_socket_addr(host: &str, port: u16) -> (r: String)
    ensures
        r@ == spec_normalize_ipv4_host(host@) + ":"@ + decimal(port as nat),
{
    let s = normalize_ipv4_host(host);
    let s = s.concat(":");
    s.concat(format_decimal(port as u64).as_str())
}

/// `ftp://host:port` with the host normalised to IPv4.
pub fn format_ipv4_ftp_url(host: &str, port: u16) -> (r: String)
    ensures
        r@ == "ftp://"@ + spec_normalize_ipv4_host(host@) + ":"@ + decimal(port as nat),
{
    let addr = format_ipv4_socket_addr(host, port);
    let s = String::from_str("ftp://");
    s.concat(addr.as_str())
}

// ---------------------------------------------------------------------------
// Addresses and interfaces
// ---------------------------------------------------------------------------

/// An IP address: an IPv4 address by its octets, or any other address by its text.
#[derive(Debug, Clone, PartialEq, Eq)]
pub enum IpAddress {
    V4([u8; 4]),
    V6(String),
}

impl IpAddress {
    /// Reads address text: dotted-quad IPv4 text becomes `V4`, anything else `V6`.
    pub fn from_text(s: &str) -> (r: IpAddress)
        ensures
            match parse_ipv4_spec(s@) {
                Some(o) => r == IpAddress::V4(o),
                None => r is V6 && r->V6_0@ == s@,
            },
    {
        let c = chars_of(s);
        match parse_ipv4(c.as_slice()) {
            Some(o) => IpAddress::V4(o),
            None => IpAddress::V6(String::from_str(s)),
        }
    }
}

/// Link-local IPv4 (169.254.0.0/16).
pub open spec fn spec_is_link_local(ip: IpAddress) -> bool {
    match ip {
        IpAddress::V4(o) => o[0] == 169 && o[1] == 254,
        IpAddress::V6(_) => false,
    }
}

/// RFC 1918 private IPv4 (10/8, 172.16/12, 192.168/16).
pub open spec fn spec_is_private_lan(ip: IpAddress) -> bool {
    match ip {
        IpAddress::V4(o) => o[0] == 10 || (o[0] == 172 && 16 <= o[1] <= 31) || (o[0] == 192 && o[1] == 168),
        IpAddress::V6(_) => false,
    }
}

/// Loopback IPv4 (127.0.0.0/8).
pub open spec fn spec_is_loopback_v4(o: [u8; 4]) -> bool {
    o[0] == 127
}

/// Name fragments of virtual, tunnel and proxy adapters.
pub open spec fn virtual_keywords() -> Seq<Seq<char>> {
    seq![
        "vmware"@, "vmnet"@, "virtualbox"@, "vbox"@, "tap"@, "tun"@, "vpn"@, "docker"@, "veth"@,
        "hyper-v"@, "hyperv"@, "wsl"@, "loopback"@, "pseudo"@, "teredo"@, "isatap"@, "mihomo"@,
        "clash"@, "tailscale"@, "zerotier"@, "wireguard"@,
    ]
}

/// Name fragments of Wi-Fi adapters.
pub open spec fn wifi_keywords() -> Seq<Seq<char>> {
    seq!["wlan"@, "wi-fi"@, "wifi"@, "wl"@, "wireless"@]
}

/// Name fragments of wired adapters.
pub open spec fn ethernet_keywords() -> Seq<Seq<char>> {
    seq!["eth"@, "en"@, "ethernet"@, "lan"@]
}

/// The lowercased adapter name contains a virtual-adapter keyword.
pub open spec fn spec_is_virtual_interface(name: Seq<char>) -> bool {
    contains_any(unicode_lowercase(name), virtual_keywords())
}

/// The lowercased adapter name contains a Wi-Fi keyword.
pub open spec fn spec_is_wifi_interface(name: Seq<char>) -> bool {
    contains_any(unicode_lowercase(name), wifi_keywords())
}

/// The lowercased adapter name contains a wired keyword and the adapter is
/// neither virtual nor Wi-Fi.
pub open spec fn spec_is_ethernet_interface(name: Seq<char>) -> bool {
    contains_any(unicode_lowercase(name), ethernet_keywords()) && !spec_is_virtual_interface(name)
        && !spec_is_wifi_interface(name)
}

/// Windows interface types of loopback (24), user-mode virtual (53) and
/// kernel tunnel (131) adapters.
pub open spec fn spec_is_virtual_by_iftype(if_type: u32) -> bool {
    if_type == 24 || if_type == 53 || if_type == 131
}

/// One usable network interface.
#[derive(Debug, Clone, PartialEq, Eq)]
pub struct NetworkInterface {
    pub name: String,
    pub ip: String,
    pub is_wifi: bool,
    pub is_ethernet: bool,
    pub is_private_lan: bool,
    /// Windows interface type; `None` off Windows.
    pub if_type: Option<u32>,
}

/// Manager of network-related queries.
pub struct NetworkManager;

/// What an interface entry records of a named adapter with the given IPv4 address.
pub open spec fn interface_matches(i: NetworkInterface, name: Seq<char>, o: [u8; 4]) -> bool {
    &&& i.name@ == name
    &&& i.ip@ == ipv4_text(o)
    &&& i.is_wifi == spec_is_wifi_interface(name)
    &&& i.is_ethernet == spec_is_ethernet_interface(name)
    &&& i.is_private_lan == spec_is_private_lan(IpAddress::V4(o))
    &&& i.if_type is None
}

/// An adapter's address qualifies: IPv4, not loopback, not link-local, and the
/// adapter is not virtual.
pub open spec fn usable_entry(name: Seq<char>, ip: Seq<char>) -> bool {
    match parse_ipv4_spec(ip) {
        Some(o) => !spec_is_loopback_v4(o) && !spec_is_link_local(IpAddress::V4(o))
            && !spec_is_virtual_interface(name),
        None => false,
    }
}

/// The entries of `raw` that qualify, in order.
pub open spec fn usable_entries(raw: Seq<(String, String)>) -> Seq<(String, String)> {
    raw.filter(|e: (String, String)| usable_entry(e.0@, e.1@))
}

/// What an interface entry holds: name, address text, Wi-Fi, wired,
/// private LAN and interface type.
pub open spec fn iface_view(i: NetworkInterface) -> (Seq<char>, Seq<char>, bool, bool, bool, Option<u32>) {
    (i.name@, i.ip@, i.is_wifi, i.is_ethernet, i.is_private_lan, i.if_type)
}

/// The interface type of the connected adapter named `name` among
/// `active` (name, type) pairs; a later pair for the same name replaces an
/// earlier one.
pub open spec fn adapter_type(active: Seq<(String, u32)>, name: Seq<char>) -> Option<u32>
    decreases active.len(),
{
    if active.len() == 0 {
        None
    } else if active.last().0@ == name {
        Some(active.last().1)
    } else {
        adapter_type(active.drop_last(), name)
    }
}

/// The interfaces kept by the connected-adapter filter, in order: those of
/// a connected adapter whose type is not virtual, with that type recorded.
pub open spec fn active_kept(ifaces: Seq<NetworkInterface>, active: Seq<(String, u32)>) -> Seq<
    (Seq<char>, Seq<char>, bool, bool, bool, Option<u32>),
>
    decreases ifaces.len(),
{
    if ifaces.len() == 0 {
        Seq::empty()
    } else {
        let rest = active_kept(ifaces.drop_last(), active);
        let i = ifaces.last();
        match adapter_type(active, i.name@) {
            Some(t) => if spec_is_virtual_by_iftype(t) {
                rest
            } else {
                rest.push((i.name@, i.ip@, i.is_wifi, i.is_ethernet, i.is_private_lan, Some(t)))
            },
            None => rest,
        }
    }
}

/// Interface priority classes, best first: private Wi-Fi, private wired,
/// any private, any Wi-Fi, any wired, anything.
pub open spec fn priority_matches(i: NetworkInterface, class: int) -> bool {
    if class == 0 {
        i.is_wifi && i.is_private_lan
    } else if class == 1 {
        i.is_ethernet && i.is_private_lan
    } else if class == 2 {
        i.is_private_lan
    } else if class == 3 {
        i.is_wifi
    } else if class == 4 {
        i.is_ethernet
    } else {
        true
    }
}

/// Index of the first interface of `s` in priority class `class`.
pub open spec fn first_in_class(s: Seq<NetworkInterface>, class: int) -> Option<int>
    decreases s.len(),
{
    if s.len() == 0 {
        None
    } else if priority_matches(s[0], class) {
        Some(0)
    } else {
        match first_in_class(s.drop_first(), class) {
            Some(k) => Some(k + 1),
            None => None,
        }
    }
}

/// Index of the recommended interface: the first of the best non-empty class.
pub open spec fn recommended_index(s: Seq<NetworkInterface>) -> Option<int> {
    if first_in_class(s, 0) is Some {
        first_in_class(s, 0)
    } else if first_in_class(s, 1) is Some {
        first_in_class(s, 1)
    } else if first_in_class(s, 2) is Some {
        first_in_class(s, 2)
    } else if first_in_class(s, 3) is Some {
        first_in_class(s, 3)
    } else if first_in_class(s, 4) is Some {
        first_in_class(s, 4)
    } else {
        first_in_class(s, 5)
    }
}

/// What the recommendation looks at in an interface: its address text and
/// whether it is Wi-Fi, wired and on a private LAN.
pub open spec fn iface_cand(i: NetworkInterface) -> (Seq<char>, bool, bool, bool) {
    (i.ip@, i.is_wifi, i.is_ethernet, i.is_private_lan)
}

/// Priority class membership of a candidate (as `priority_matches`).
pub open spec fn cand_matches(c: (Seq<char>, bool, bool, bool), class: int) -> bool {
    if class == 0 {
        c.1 && c.3
    } else if class == 1 {
        c.2 && c.3
    } else if class == 2 {
        c.3
    } else if class == 3 {
        c.1
    } else if class == 4 {
        c.2
    } else {
        true
    }
}

/// Index of the first candidate in priority class `class`.
pub open spec fn first_cand_in_class(s: Seq<(Seq<char>, bool, bool, bool)>, class: int) -> Option<int>
    decreases s.len(),
{
    if s.len() == 0 {
        None
    } else if cand_matches(s[0], class) {
        Some(0)
    } else {
        match first_cand_in_class(s.drop_first(), class) {
            Some(k) => Some(k + 1),
            None => None,
        }
    }
}

/// Index of the recommended candidate: the first of the best non-empty class.
pub open spec fn recommended_cand(s: Seq<(Seq<char>, bool, bool, bool)>) -> Option<int> {
    if first_cand_in_class(s, 0) is Some {
        first_cand_in_class(s, 0)
    } else if first_cand_in_class(s, 1) is Some {
        first_cand_in_class(s, 1)
    } else if first_cand_in_class(s, 2) is Some {
        first_cand_in_class(s, 2)
    } else if first_cand_in_class(s, 3) is Some {
        first_cand_in_class(s, 3)
    } else if first_cand_in_class(s, 4) is Some {
        first_cand_in_class(s, 4)
    } else {
        first_cand_in_class(s, 5)
    }
}

/// The candidate of a usable adapter entry.
pub open spec fn entry_cand(name: Seq<char>, ip: Seq<char>) -> (Seq<char>, bool, bool, bool) {
    let o = parse_ipv4_spec(ip)->0;
    (ipv4_text(o), spec_is_wifi_interface(name), spec_is_ethernet_interface(name), spec_is_private_lan(IpAddress::V4(o)))
}

/// The usable entries of an adapter listing, each with its adapter name and
/// candidate, in order; none when the listing failed.
pub open spec fn named_cands(listed: Result<Vec<(String, String)>, String>) -> Seq<
    (Seq<char>, (Seq<char>, bool, bool, bool)),
> {
    match listed {
        Ok(raw) => usable_entries(raw@).map_values(|e: (String, String)| (e.0@, entry_cand(e.0@, e.1@))),
        Err(_) => Seq::empty(),
    }
}

/// The candidates that pass the connected-adapter filter: those of a
/// connected adapter whose interface type is not virtual, in order.
pub open spec fn active_cands(named: Seq<(Seq<char>, (Seq<char>, bool, bool, bool))>, active: Seq<(String, u32)>) -> Seq<
    (Seq<char>, bool, bool, bool),
>
    decreases named.len(),
{
    if named.len() == 0 {
        Seq::empty()
    } else {
        let rest = active_cands(named.drop_last(), active);
        match adapter_type(active, named.last().0) {
            Some(t) => if spec_is_virtual_by_iftype(t) {
                rest
            } else {
                rest.push(named.last().1)
            },
            None => rest,
        }
    }
}

/// The candidates of an adapter listing: one per usable entry, in order,
/// kept by the connected-adapter filter when adapter information `active`
/// is given; none when the listing failed.
pub open spec fn listed_cands(listed: Result<Vec<(String, String)>, String>, active: Seq<(String, u32)>) -> Seq<
    (Seq<char>, bool, bool, bool),
> {
    if active.len() == 0 {
        named_cands(listed).map_values(|n: (Seq<char>, (Seq<char>, bool, bool, bool))| n.1)
    } else {
        active_cands(named_cands(listed), active)
    }
}

/// The candidate of the primary address: a wired interface, when the address
/// is IPv4 and neither loopback nor link-local.
pub open spec fn fallback_cand(primary: Result<String, String>) -> Option<(Seq<char>, bool, bool, bool)> {
    match primary {
        Ok(ip) => match parse_ipv4_spec(ip@) {
            Some(o) => if !spec_is_loopback_v4(o) && !spec_is_link_local(IpAddress::V4(o)) {
                Some((ipv4_text(o), false, true, spec_is_private_lan(IpAddress::V4(o))))
            } else {
                None
            },
            None => None,
        },
        Err(_) => None,
    }
}

/// The address recommended from an adapter listing, the connected-adapter
/// information and the primary address: the listing's usable interfaces
/// (filtered by the adapter information when there is any), or the primary
/// address alone when none is left, chosen by priority (see
/// `choose_recommended`).
pub open spec fn spec_recommend(
    listed: Result<Vec<(String, String)>, String>,
    active: Seq<(String, u32)>,
    primary: Result<String, String>,
) -> Option<Seq<char>> {
    let cands = if listed_cands(listed, active).len() > 0 {
        listed_cands(listed, active)
    } else {
        match fallback_cand(primary) {
            Some(c) => seq![c],
            None => Seq::empty(),
        }
    };
    match recommended_cand(cands) {
        Some(k) => Some(cands[k].0),
        None => None,
    }
}

/// A usable entry within a prefix is a usable entry of the whole listing.
proof fn lemma_usable_prefix(raw: Seq<(String, String)>, n: int)
    requires
        0 <= n <= raw.len(),
    ensures
        usable_entries(raw.subrange(0, n)).len() <= usable_entries(raw).len(),
    decreases raw.len() - n,
{
    reveal(Seq::filter);
    if n < raw.len() {
        lemma_usable_prefix(raw, n + 1);
        assert(raw.subrange(0, n + 1).drop_last() =~= raw.subrange(0, n));
    } else {
        assert(raw.subrange(0, n) =~= raw);
    }
}

/// The candidate of an interface's value (name, address, Wi-Fi, wired,
/// private LAN, type).
pub open spec fn view_cand(t: (Seq<char>, Seq<char>, bool, bool, bool, Option<u32>)) -> (Seq<char>, bool, bool, bool) {
    (t.1, t.2, t.3, t.4)
}

/// An interface's name with its candidate.
pub open spec fn iface_named(i: NetworkInterface) -> (Seq<char>, (Seq<char>, bool, bool, bool)) {
    (i.name@, iface_cand(i))
}

proof fn lemma_active_kept_cands(s: Seq<NetworkInterface>, active: Seq<(String, u32)>)
    ensures
        active_kept(s, active).map_values(|t: (Seq<char>, Seq<char>, bool, bool, bool, Option<u32>)| view_cand(t))
            == active_cands(s.map_values(|i: NetworkInterface| iface_named(i)), active),
    decreases s.len(),
{
    let n = s.map_values(|i: NetworkInterface| iface_named(i));
    if s.len() > 0 {
        lemma_active_kept_cands(s.drop_last(), active);
        assert(n.drop_last() =~= s.drop_last().map_values(|i: NetworkInterface| iface_named(i)));
        assert(n.last() == iface_named(s.last()));
        let rest = active_kept(s.drop_last(), active);
        let i = s.last();
        match adapter_type(active, i.name@) {
            Some(t) => {
                if !spec_is_virtual_by_iftype(t) {
                    let x = (i.name@, i.ip@, i.is_wifi, i.is_ethernet, i.is_private_lan, Some(t));
                    assert(rest.push(x).map_values(
                        |t: (Seq<char>, Seq<char>, bool, bool, bool, Option<u32>)| view_cand(t),
                    ) =~= rest.map_values(|t: (Seq<char>, Seq<char>, bool, bool, bool, Option<u32>)| view_cand(t)).push(
                        view_cand(x),
                    ));
                }
            },
            None => {},
        }
    } else {
        assert(active_kept(s, active).map_values(
            |t: (Seq<char>, Seq<char>, bool, bool, bool, Option<u32>)| view_cand(t),
        ) =~= Seq::<(Seq<char>, bool, bool, bool)>::empty());
    }
}

/// The candidates kept by the filter are candidates of the listing.
proof fn lemma_active_cands_from(named: Seq<(Seq<char>, (Seq<char>, bool, bool, bool))>, active: Seq<(String, u32)>)
    ensures
        forall|k: int|
            0 <= k < active_cands(named, active).len() ==> exists|j: int|
                0 <= j < named.len() && #[trigger] active_cands(named, active)[k] == named[j].1,
    decreases named.len(),
{
    if named.len() > 0 {
        lemma_active_cands_from(named.drop_last(), active);
        let rest = active_cands(named.drop_last(), active);
        assert forall|k: int| 0 <= k < active_cands(named, active).len() implies exists|j: int|
            0 <= j < named.len() && #[trigger] active_cands(named, active)[k] == named[j].1 by {
            if k < rest.len() {
                assert(active_cands(named, active)[k] == rest[k]);
                let j = choose|j: int| 0 <= j < named.drop_last().len() && rest[k] == named.drop_last()[j].1;
                assert(named[j] == named.drop_last()[j]);
            } else {
                assert(active_cands(named, active)[k] == named[named.len() - 1].1);
            }
        }
    }
}

proof fn lemma_first_in_class_cands(s: Seq<NetworkInterface>, class: int)
    ensures
        first_in_class(s, class) == first_cand_in_class(s.map_values(|i: NetworkInterface| iface_cand(i)), class),
    decreases s.len(),
{
    let m = s.map_values(|i: NetworkInterface| iface_cand(i));
    if s.len() > 0 {
        assert(m[0] == iface_cand(s[0]));
        assert(m.drop_first() =~= s.drop_first().map_values(|i: NetworkInterface| iface_cand(i)));
        lemma_first_in_class_cands(s.drop_first(), class);
    }
}

proof fn lemma_recommended_cands(s: Seq<NetworkInterface>)
    ensures
        recommended_index(s) == recommended_cand(s.map_values(|i: NetworkInterface| iface_cand(i))),
{
    lemma_first_in_class_cands(s, 0);
    lemma_first_in_class_cands(s, 1);
    lemma_first_in_class_cands(s, 2);
    lemma_first_in_class_cands(s, 3);
    lemma_first_in_class_cands(s, 4);
    lemma_first_in_class_cands(s, 5);
}

proof fn lemma_first_cand_in_class(s: Seq<(Seq<char>, bool, bool, bool)>, class: int)
    ensures
        match first_cand_in_class(s, class) {
            Some(k) => 0 <= k < s.len() && cand_matches(s[k], class) && forall|j: int|
                0 <= j < k ==> !cand_matches(#[trigger] s[j], class),
            None => forall|j: int| 0 <= j < s.len() ==> !cand_matches(#[trigger] s[j], class),
        },
    decreases s.len(),
{
    if s.len() > 0 && !cand_matches(s[0], class) {
        let t = s.drop_first();
        lemma_first_cand_in_class(t, class);
        match first_cand_in_class(t, class) {
            Some(k) => {
                assert(s[k + 1] == t[k]);
                assert forall|j: int| 0 <= j < k + 1 implies !cand_matches(#[trigger] s[j], class) by {
                    if j > 0 {
                        assert(s[j] == t[j - 1]);
                    }
                }
            },
            None => {
                assert forall|j: int| 0 <= j < s.len() implies !cand_matches(#[trigger] s[j], class) by {
                    if j > 0 {
                        assert(s[j] == t[j - 1]);
                    }
                }
            },
        }
    }
}

/// How good an address is for the FTP server, best first: a private-LAN
/// Wi-Fi address, a private-LAN wired one, any other private-LAN one, a
/// Wi-Fi one, a wired one, anything else.
pub open spec fn address_rank(is_wifi: bool, is_ethernet: bool, is_private_lan: bool) -> int {
    if is_wifi && is_private_lan {
        0
    } else if is_ethernet && is_private_lan {
        1
    } else if is_private_lan {
        2
    } else if is_wifi {
        3
    } else if is_ethernet {
        4
    } else {
        5
    }
}

/// The recommended candidate is the first of the best-ranked ones: there is
/// one exactly when there is any candidate; none ranks better, none before
/// it ranks as well. In particular a private-LAN address is chosen whenever
/// there is one (a public address never wins over a private one), and a
/// private Wi-Fi address whenever there is one.
pub proof fn law_recommended_cand_is_first_best(s: Seq<(Seq<char>, bool, bool, bool)>)
    ensures
        recommended_cand(s) is Some <==> s.len() > 0,
        recommended_cand(s) matches Some(k) ==> {
            &&& 0 <= k < s.len()
            &&& forall|j: int| 0 <= j < s.len() ==> address_rank(s[k].1, s[k].2, s[k].3) <= address_rank(
                #[trigger] s[j].1,
                s[j].2,
                s[j].3,
            )
            &&& forall|j: int| 0 <= j < k ==> address_rank(s[k].1, s[k].2, s[k].3) < address_rank(
                #[trigger] s[j].1,
                s[j].2,
                s[j].3,
            )
            &&& (exists|j: int| 0 <= j < s.len() && #[trigger] s[j].3) ==> s[k].3
            &&& (exists|j: int| 0 <= j < s.len() && #[trigger] s[j].1 && s[j].3) ==> s[k].1 && s[k].3
        },
{
    lemma_first_cand_in_class(s, 0);
    lemma_first_cand_in_class(s, 1);
    lemma_first_cand_in_class(s, 2);
    lemma_first_cand_in_class(s, 3);
    lemma_first_cand_in_class(s, 4);
    lemma_first_cand_in_class(s, 5);
    if s.len() > 0 {
        assert(cand_matches(s[0], 5));
    }
}

/// The recommended interface is the first of the best-ranked ones (see
/// `law_recommended_cand_is_first_best`): a private-LAN interface is chosen
/// whenever there is one, a private Wi-Fi one whenever there is one.
pub proof fn law_recommended_interface_is_first_best(s: Seq<NetworkInterface>)
    ensures
        recommended_index(s) is Some <==> s.len() > 0,
        recommended_index(s) matches Some(k) ==> {
            &&& 0 <= k < s.len()
            &&& forall|j: int| 0 <= j < s.len() ==> address_rank(s[k].is_wifi, s[k].is_ethernet, s[k].is_private_lan)
                <= address_rank(#[trigger] s[j].is_wifi, s[j].is_ethernet, s[j].is_private_lan)
            &&& forall|j: int| 0 <= j < k ==> address_rank(s[k].is_wifi, s[k].is_ethernet, s[k].is_private_lan)
                < address_rank(#[trigger] s[j].is_wifi, s[j].is_ethernet, s[j].is_private_lan)
            &&& (exists|j: int| 0 <= j < s.len() && #[trigger] s[j].is_private_lan) ==> s[k].is_private_lan
            &&& (exists|j: int| 0 <= j < s.len() && #[trigger] s[j].is_wifi && s[j].is_private_lan) ==> s[k].is_wifi
                && s[k].is_private_lan
        },
{
    let m = s.map_values(|i: NetworkInterface| iface_cand(i));
    lemma_recommended_cands(s);
    law_recommended_cand_is_first_best(m);
    assert forall|j: int| 0 <= j < s.len() implies #[trigger] m[j] == iface_cand(s[j]) by {}
    if let Some(k) = recommended_index(s) {
        if exists|j: int| 0 <= j < s.len() && #[trigger] s[j].is_private_lan {
            let j = choose|j: int| 0 <= j < s.len() && #[trigger] s[j].is_private_lan;
            assert(m[j].3);
        }
        if exists|j: int| 0 <= j < s.len() && #[trigger] s[j].is_wifi && s[j].is_private_lan {
            let j = choose|j: int| 0 <= j < s.len() && #[trigger] s[j].is_wifi && s[j].is_private_lan;
            assert(m[j].1 && m[j].3);
        }
        assert forall|j: int| 0 <= j < s.len() implies address_rank(s[k].is_wifi, s[k].is_ethernet, s[k].is_private_lan)
            <= address_rank(#[trigger] s[j].is_wifi, s[j].is_ethernet, s[j].is_private_lan) by {
            assert(m[j] == iface_cand(s[j]));
            assert(m[k] == iface_cand(s[k]));
            assert(address_rank(m[k].1, m[k].2, m[k].3) <= address_rank(m[j].1, m[j].2, m[j].3));
        }
        assert forall|j: int| 0 <= j < k implies address_rank(s[k].is_wifi, s[k].is_ethernet, s[k].is_private_lan)
            < address_rank(#[trigger] s[j].is_wifi, s[j].is_ethernet, s[j].is_private_lan) by {
            assert(m[j] == iface_cand(s[j]));
            assert(m[k] == iface_cand(s[k]));
            assert(address_rank(m[k].1, m[k].2, m[k].3) < address_rank(m[j].1, m[j].2, m[j].3));
        }
    }
}

proof fn lemma_first_in_class(s: Seq<NetworkInterface>, class: int)
    ensures
        match first_in_class(s, class) {
            Some(k) => 0 <= k < s.len() && priority_matches(s[k], class) && forall|j: int|
                0 <= j < k ==> !priority_matches(#[trigger] s[j], class),
            None => forall|j: int| 0 <= j < s.len() ==> !priority_matches(#[trigger] s[j], class),
        },
    decreases s.len(),
{
    if s.len() > 0 && !priority_matches(s[0], class) {
        let t = s.drop_first();
        lemma_first_in_class(t, class);
        match first_in_class(t, class) {
            Some(k) => {
                assert(s[k + 1] == t[k]);
                assert forall|j: int| 0 <= j < k + 1 implies !priority_matches(#[trigger] s[j], class) by {
                    if j > 0 {
                        assert(s[j] == t[j - 1]);
                    }
                }
            },
            None => {
                assert forall|j: int| 0 <= j < s.len() implies !priority_matches(#[trigger] s[j], class) by {
                    if j > 0 {
                        assert(s[j] == t[j - 1]);
                    }
                }
            },
        }
    }
}

fn matches_class(i: &NetworkInterface, class: u8) -> (r: bool)
    ensures
        r == priority_matches(*i, class as int),
{
    if class == 0 {
        i.is_wifi && i.is_private_lan
    } else if class == 1 {
        i.is_ethernet && i.is_private_lan
    } else if class == 2 {
        i.is_private_lan
    } else if class == 3 {
        i.is_wifi
    } else if class == 4 {
        i.is_ethernet
    } else {
        true
    }
}

fn find_in_class(s: &Vec<NetworkInterface>, class: u8) -> (r: Option<usize>)
    ensures
        match r {
            Some(i) => first_in_class(s@, class as int) == Some(i as int),
            None => first_in_class(s@, class as int) is None,
        },
{
    proof {
        lemma_first_in_class(s@, class as int);
    }
    let mut i: usize = 0;
    while i < s.len()
        invariant
            i <= s@.len(),
            forall|j: int| 0 <= j < i ==> !priority_matches(#[trigger] s@[j], class as int),
        decreases s@.len() - i,
    {
        if matches_class(&s[i], class) {
            proof {
                lemma_first_in_class(s@, class as int);
                match first_in_class(s@, class as int) {
                    Some(k) => {
                        if k < i {
                        } else if k > i {
                        }
                    },
                    None => {
                    },
                }
            }
            return Some(i);
        }
        i = i + 1;
    }
    None
}

/// `is_available` reported `port` free (`true`) or taken.
pub open spec fn port_reported<F: Fn(u16) -> bool>(is_available: F, port: u16, free: bool) -> bool {
    is_available.ensures((port,), free)
}

impl NetworkManager {
    /// The first port from `start` up to 65535 that `is_available` reports
    /// free; `None` when it reports every one taken.
    pub fn find_available_port<F: Fn(u16) -> bool>(start: u16, is_available: F) -> (r: Option<u16>)
        requires
            forall|p: u16| #[trigger] is_available.requires((p,)),
        ensures
            match r {
                Some(p) => start <= p && port_reported(is_available, p, true) && forall|q: u16|
                    start <= q < p ==> #[trigger] port_reported(is_available, q, false),
                None => forall|q: u16| start <= q ==> #[trigger] port_reported(is_available, q, false),
            },
    {
        let mut port: u16 = start;
        loop
            invariant
                start <= port,
                forall|p: u16| #[trigger] is_available.requires((p,)),
                forall|q: u16| start <= q < port ==> #[trigger] port_reported(is_available, q, false),
            decreases 65535 - port,
        {
            if is_available(port) {
                return Some(port);
            }
            if port == 65535 {
                return None;
            }
            port = port + 1;
        }
    }

    /// Checks for a link-local address (169.254.0.0/16).
    pub fn is_link_local(ip: &IpAddress) -> (r: bool)
        ensures
            r == spec_is_link_local(*ip),
    {
        match ip {
            IpAddress::V4(o) => o[0] == 169 && o[1] == 254,
            IpAddress::V6(_) => false,
        }
    }

    /// Checks for an RFC 1918 private address. Proxy fake-IP ranges such as
    /// 198.18.x.x are not private, which lets the server rank proxies lower.
    pub fn is_private_lan(ip: &IpAddress) -> (r: bool)
        ensures
            r == spec_is_private_lan(*ip),
    {
        match ip {
            IpAddress::V4(o) => o[0] == 10 || (o[0] == 172 && 16 <= o[1] && o[1] <= 31) || (o[0] == 192
                && o[1] == 168),
            IpAddress::V6(_) => false,
        }
    }

    /// Checks whether an adapter name looks like a virtual adapter.
    pub fn is_virtual_interface(name: &str) -> (r: bool)
        ensures
            r == spec_is_virtual_interface(name@),
    {
        let lowered = to_lowercase(name);
        let l = chars_of(lowered.as_str());
        let keywords: [&str; 21] = [
            "vmware", "vmnet", "virtualbox", "vbox", "tap", "tun", "vpn", "docker", "veth", "hyper-v",
            "hyperv", "wsl", "loopback", "pseudo", "teredo", "isatap", "mihomo", "clash", "tailscale",
            "zerotier", "wireguard",
        ];
        proof {
            assert(keywords@.map_values(|k: &str| k@) =~= virtual_keywords());
        }
        contains_any_keyword(l.as_slice(), keywords.as_slice())
    }

    /// Checks whether a Windows interface type denotes a virtual or tunnel adapter.
    pub fn is_virtual_by_iftype(if_type: u32) -> (r: bool)
        ensures
            r == spec_is_virtual_by_iftype(if_type),
    {
        if_type == 24 || if_type == 53 || if_type == 131
    }

    /// Checks whether an adapter name looks like a Wi-Fi adapter.
    pub fn is_wifi_interface(name: &str) -> (r: bool)
        ensures
            r == spec_is_wifi_interface(name@),
    {
        let lowered = to_lowercase(name);
        let l = chars_of(lowered.as_str());
        let keywords: [&str; 5] = ["wlan", "wi-fi", "wifi", "wl", "wireless"];
        proof {
            assert(keywords@.map_values(|k: &str| k@) =~= wifi_keywords());
        }
        contains_any_keyword(l.as_slice(), keywords.as_slice())
    }

    /// Checks whether an adapter name looks like a wired adapter (and is
    /// neither virtual nor Wi-Fi).
    pub fn is_ethernet_interface(name: &str) -> (r: bool)
        ensures
            r == spec_is_ethernet_interface(name@),
    {
        let lowered = to_lowercase(name);
        let l = chars_of(lowered.as_str());
        let keywords: [&str; 4] = ["eth", "en", "ethernet", "lan"];
        proof {
            assert(keywords@.map_values(|k: &str| k@) =~= ethernet_keywords());
        }
        contains_any_keyword(l.as_slice(), keywords.as_slice()) && !Self::is_virtual_interface(name)
            && !Self::is_wifi_interface(name)
    }

    /// The interface entry for a qualifying adapter, or `None` when the
    /// address is not IPv4, is loopback or link-local, or the adapter is virtual.
    pub fn interface_from_entry(name: &String, ip: &String) -> (r: Option<NetworkInterface>)
        ensures
            usable_entry(name@, ip@) <==> r is Some,
            r is Some ==> interface_matches(r->0, name@, parse_ipv4_spec(ip@)->0),
    {
        let ipc = chars_of(ip.as_str());
        let o = match parse_ipv4(ipc.as_slice()) {
            Some(o) => o,
            None => return None,
        };
        let addr = IpAddress::V4(o);
        if o[0] == 127 || Self::is_link_local(&addr) || Self::is_virtual_interface(name.as_str()) {
            return None;
        }
        let is_wifi = Self::is_wifi_interface(name.as_str());
        let is_ethernet = Self::is_ethernet_interface(name.as_str());
        let is_private_lan = Self::is_private_lan(&addr);
        Some(
            NetworkInterface {
                name: name.clone(),
                ip: format_ipv4(o),
                is_wifi,
                is_ethernet,
                is_private_lan,
                if_type: None,
            },
        )
    }

    /// The usable interfaces among the adapters the system listed, in order.
    /// A failed listing yields no interface.
    pub fn interfaces_from_list(listed: Result<Vec<(String, String)>, String>) -> (r: Vec<NetworkInterface>)
        ensures
            match listed {
                Ok(raw) => r@.len() == usable_entries(raw@).len() && forall|k: int|
                    0 <= k < r@.len() ==> interface_matches(
                        #[trigger] r@[k],
                        usable_entries(raw@)[k].0@,
                        parse_ipv4_spec(usable_entries(raw@)[k].1@)->0,
                    ),
                Err(_) => r@.len() == 0,
            },
    {
        let raw = match listed {
            Ok(raw) => raw,
            Err(_) => return Vec::new(),
        };
        let mut out: Vec<NetworkInterface> = Vec::new();
        let mut i: usize = 0;
        while i < raw.len()
            invariant
                i <= raw@.len(),
                out@.len() == usable_entries(raw@.subrange(0, i as int)).len(),
                forall|k: int|
                    0 <= k < out@.len() ==> interface_matches(
                        #[trigger] out@[k],
                        usable_entries(raw@.subrange(0, i as int))[k].0@,
                        parse_ipv4_spec(usable_entries(raw@.subrange(0, i as int))[k].1@)->0,
                    ),
            decreases raw@.len() - i,
        {
            let ghost prefix = raw@.subrange(0, i as int);
            proof {
                assert(raw@.subrange(0, i + 1) =~= prefix.push(raw@[i as int]));
                reveal(Seq::filter);
                assert(raw@.subrange(0, i + 1).drop_last() =~= prefix);
            }
            let entry = Self::interface_from_entry(&raw[i].0, &raw[i].1);
            match entry {
                Some(iface) => {
                    out.push(iface);
                },
                None => {
                },
            }
            i = i + 1;
        }
        proof {
            assert(raw@.subrange(0, raw@.len() as int) =~= raw@);
        }
        out
    }

    /// The interface type of the connected adapter `name`, if it is connected.
    fn active_adapter_type(active: &Vec<(String, u32)>, name: &str) -> (r: Option<u32>)
        ensures
            r == adapter_type(active@, name@),
    {
        let mut i: usize = active.len();
        proof {
            assert(active@.subrange(0, i as int) =~= active@);
        }
        while i > 0
            invariant
                i <= active@.len(),
                adapter_type(active@, name@) == adapter_type(active@.subrange(0, i as int), name@),
            decreases i,
        {
            proof {
                assert(active@.subrange(0, i as int).drop_last() =~= active@.subrange(0, i - 1));
            }
            if str_eq(active[i - 1].0.as_str(), name) {
                return Some(active[i - 1].1);
            }
            i = i - 1;
        }
        proof {
            assert(active@.subrange(0, 0) =~= Seq::<(String, u32)>::empty());
        }
        None
    }

    /// The connected-adapter filter used on Windows: given the connected
    /// adapters' (name, interface type) pairs, keeps the interfaces of
    /// connected adapters whose type is not virtual and records the type.
    /// When no adapter information is available the interfaces stay as they are.
    pub fn filter_by_active_adapters(interfaces: Vec<NetworkInterface>, active: &Vec<(String, u32)>) -> (r: Vec<
        NetworkInterface,
    >)
        ensures
            active@.len() == 0 ==> r@ == interfaces@,
            active@.len() > 0 ==> r@.map_values(|i: NetworkInterface| iface_view(i)) == active_kept(
                interfaces@,
                active@,
            ),
    {
        if active.len() == 0 {
            return interfaces;
        }
        let mut out: Vec<NetworkInterface> = Vec::new();
        let mut k: usize = 0;
        while k < interfaces.len()
            invariant
                k <= interfaces@.len(),
                out@.map_values(|i: NetworkInterface| iface_view(i)) == active_kept(
                    interfaces@.subrange(0, k as int),
                    active@,
                ),
            decreases interfaces@.len() - k,
        {
            let ghost before = out@;
            let ghost prefix = interfaces@.subrange(0, k + 1);
            proof {
                assert(prefix.drop_last() =~= interfaces@.subrange(0, k as int));
                assert(prefix.last() == interfaces@[k as int]);
            }
            let iface = &interfaces[k];
            match Self::active_adapter_type(active, iface.name.as_str()) {
                Some(t) => {
                    if !Self::is_virtual_by_iftype(t) {
                        let kept = NetworkInterface {
                            name: iface.name.clone(),
                            ip: iface.ip.clone(),
                            is_wifi: iface.is_wifi,
                            is_ethernet: iface.is_ethernet,
                            is_private_lan: iface.is_private_lan,
                            if_type: Some(t),
                        };
                        out.push(kept);
                        proof {
                            assert(out@.map_values(|i: NetworkInterface| iface_view(i)) =~= before.map_values(
                                |i: NetworkInterface| iface_view(i),
                            ).push(iface_view(kept)));
                        }
                    }
                },
                None => {},
            }
            k = k + 1;
        }
        proof {
            assert(interfaces@.subrange(0, interfaces@.len() as int) =~= interfaces@);
        }
        out
    }

    /// The fallback interface built from the system's primary address, used
    /// when no adapter qualified: it must be IPv4, not loopback, not link-local.
    pub fn fallback_interface(primary: Result<String, String>) -> (r: Option<NetworkInterface>)
        ensures
            match primary {
                Ok(ip) => match parse_ipv4_spec(ip@) {
                    Some(o) => if !spec_is_loopback_v4(o) && !spec_is_link_local(IpAddress::V4(o)) {
                        r is Some && r->0.name@ == "primary"@ && r->0.ip@ == ipv4_text(o) && !r->0.is_wifi
                            && r->0.is_ethernet && r->0.is_private_lan == spec_is_private_lan(
                            IpAddress::V4(o),
                        ) && r->0.if_type is None
                    } else {
                        r is None
                    },
                    None => r is None,
                },
                Err(_) => r is None,
            },
    {
        let ip = match primary {
            Ok(ip) => ip,
            Err(_) => return None,
        };
        let ipc = chars_of(ip.as_str());
        match parse_ipv4(ipc.as_slice()) {
            Some(o) => {
                let addr = IpAddress::V4(o);
                if o[0] != 127 && !Self::is_link_local(&addr) {
                    let is_private_lan = Self::is_private_lan(&addr);
                    Some(
                        NetworkInterface {
                            name: String::from_str("primary"),
                            ip: format_ipv4(o),
                            is_wifi: false,
                            is_ethernet: true,
                            is_private_lan,
                            if_type: None,
                        },
                    )
                } else {
                    None
                }
            },
            None => None,
        }
    }

    /// The address of the recommended interface: the first private Wi-Fi one,
    /// else the first private wired one, else the first private one, else the
    /// first Wi-Fi one, else the first wired one, else the first one.
    pub fn choose_recommended(interfaces: &Vec<NetworkInterface>) -> (r: Option<String>)
        ensures
            match recommended_index(interfaces@) {
                Some(k) => 0 <= k < interfaces@.len() && r is Some && r->0@ == interfaces@[k].ip@,
                None => r is None,
            },
    {
        let mut class: u8 = 0;
        while class < 6
            invariant
                class <= 6,
                forall|c: int| 0 <= c < class ==> first_in_class(interfaces@, c) is None,
            decreases 6 - class,
        {
            match find_in_class(interfaces, class) {
                Some(k) => {
                    proof {
                        lemma_first_in_class(interfaces@, class as int);
                        if class == 0 {
                        } else if class == 1 {
                            assert(first_in_class(interfaces@, 0) is None);
                        } else if class == 2 {
                            assert(first_in_class(interfaces@, 0) is None);
                            assert(first_in_class(interfaces@, 1) is None);
                        } else if class == 3 {
                            assert(first_in_class(interfaces@, 0) is None);
                            assert(first_in_class(interfaces@, 1) is None);
                            assert(first_in_class(interfaces@, 2) is None);
                        } else if class == 4 {
                            assert(first_in_class(interfaces@, 0) is None);
                            assert(first_in_class(interfaces@, 1) is None);
                            assert(first_in_class(interfaces@, 2) is None);
                            assert(first_in_class(interfaces@, 3) is None);
                        } else {
                            assert(first_in_class(interfaces@, 0) is None);
                            assert(first_in_class(interfaces@, 1) is None);
                            assert(first_in_class(interfaces@, 2) is None);
                            assert(first_in_class(interfaces@, 3) is None);
                            assert(first_in_class(interfaces@, 4) is None);
                        }
                    }
                    proof {
                        assert(first_in_class(interfaces@, class as int) == Some(k as int));
                        assert(recommended_index(interfaces@) == Some(k as int));
                    }
                    return Some(interfaces[k].ip.clone());
                },
                None => {
                },
            }
            class = class + 1;
        }
        proof {
            lemma_first_in_class(interfaces@, 5);
            assert(first_in_class(interfaces@, 0) is None);
            assert(first_in_class(interfaces@, 1) is None);
            assert(first_in_class(interfaces@, 2) is None);
            assert(first_in_class(interfaces@, 3) is None);
            assert(first_in_class(interfaces@, 4) is None);
            assert(first_in_class(interfaces@, 5) is None);
        }
        None
    }

    /// The address recommended from the adapter listing `listed`, the
    /// connected adapters' (name, interface type) pairs `active` (empty when
    /// the platform gives none) and the primary address `primary`: the
    /// usable interfaces of the listing, kept by `filter_by_active_adapters`,
    /// or, when none is left, the interface built from the primary address,
    /// chosen by priority with `choose_recommended`.
    pub fn recommend_from(
        listed: Result<Vec<(String, String)>, String>,
        active: &Vec<(String, u32)>,
        primary: Result<String, String>,
    ) -> (r: Option<String>)
        ensures
            crate::ftp::opt_view(r) == spec_recommend(listed, active@, primary),
            r is Some ==> parse_ipv4_spec(r->0@) is Some,
    {
        let ghost l = listed;
        let ghost pr = primary;
        let listed_ifaces = Self::interfaces_from_list(listed);
        let ghost s = listed_ifaces@;
        proof {
            assert(s.map_values(|i: NetworkInterface| iface_named(i)) =~= named_cands(l));
            assert forall|k: int| 0 <= k < named_cands(l).len() implies parse_ipv4_spec(
                #[trigger] named_cands(l)[k].1.0,
            ) is Some by {
                match l {
                    Ok(raw) => {
                        let o = parse_ipv4_spec(usable_entries(raw@)[k].1@)->0;
                        lemma_ipv4_roundtrip(o);
                    },
                    Err(_) => {},
                }
            }
        }
        let mut interfaces = Self::filter_by_active_adapters(listed_ifaces, active);
        proof {
            if active@.len() == 0 {
                assert(interfaces@.map_values(|i: NetworkInterface| iface_cand(i)) =~= named_cands(l).map_values(
                    |n: (Seq<char>, (Seq<char>, bool, bool, bool))| n.1,
                ));
            } else {
                lemma_active_kept_cands(s, active@);
                let v = interfaces@.map_values(|i: NetworkInterface| iface_view(i));
                assert(interfaces@.map_values(|i: NetworkInterface| iface_cand(i)) =~= v.map_values(
                    |t: (Seq<char>, Seq<char>, bool, bool, bool, Option<u32>)| view_cand(t),
                ));
            }
            assert(interfaces@.map_values(|i: NetworkInterface| iface_cand(i)) == listed_cands(l, active@));
        }
        let ghost cands = listed_cands(l, active@);
        proof {
            if active@.len() > 0 {
                lemma_active_cands_from(named_cands(l), active@);
            }
            assert forall|k: int| 0 <= k < cands.len() implies parse_ipv4_spec(#[trigger] cands[k].0) is Some by {
                if active@.len() == 0 {
                    assert(cands[k] == named_cands(l)[k].1);
                } else {
                    let j = choose|j: int| 0 <= j < named_cands(l).len() && cands[k] == named_cands(l)[j].1;
                    assert(parse_ipv4_spec(named_cands(l)[j].1.0) is Some);
                }
            }
        }
        let ghost final_cands = cands;
        if interfaces.len() == 0 {
            match Self::fallback_interface(primary) {
                Some(i) => {
                    proof {
                        let o = parse_ipv4_spec(pr->Ok_0@)->0;
                        assert(i.ip@ == ipv4_text(o));
                        lemma_ipv4_roundtrip(o);
                    }
                    interfaces.push(i);
                    proof {
                        assert(interfaces@[0] == i);
                        assert(interfaces@.map_values(|i: NetworkInterface| iface_cand(i)) =~= seq![
                            fallback_cand(pr)->0,
                        ]);
                    }
                },
                None => {
                    proof {
                        assert(interfaces@.map_values(|i: NetworkInterface| iface_cand(i)) =~= Seq::<
                            (Seq<char>, bool, bool, bool),
                        >::empty());
                    }
                },
            }
        }
        proof {
            lemma_recommended_cands(interfaces@);
        }
        let r = Self::choose_recommended(&interfaces);
        proof {
            match recommended_index(interfaces@) {
                Some(k) => {
                    assert(interfaces@.map_values(|i: NetworkInterface| iface_cand(i))[k] == iface_cand(
                        interfaces@[k],
                    ));
                    if cands.len() > 0 {
                        assert(parse_ipv4_spec(cands[k].0) is Some);
                    }
                },
                None => {},
            }
        }
        r
    }

    /// Whether some adapter entry qualifies.
    fn has_usable_entry(raw: &Vec<(String, String)>) -> (r: bool)
        ensures
            r == (usable_entries(raw@).len() > 0),
    {
        let mut i: usize = 0;
        while i < raw.len()
            invariant
                i <= raw@.len(),
                usable_entries(raw@.subrange(0, i as int)).len() == 0,
            decreases raw@.len() - i,
        {
            let ghost prefix = raw@.subrange(0, i as int);
            proof {
                assert(raw@.subrange(0, i + 1) =~= prefix.push(raw@[i as int]));
                reveal(Seq::filter);
                assert(raw@.subrange(0, i + 1).drop_last() =~= prefix);
            }
            if Self::interface_from_entry(&raw[i].0, &raw[i].1).is_some() {
                proof {
                    lemma_usable_prefix(raw@, (i + 1) as int);
                }
                return true;
            }
            i = i + 1;
        }
        proof {
            assert(raw@.subrange(0, raw@.len() as int) =~= raw@);
        }
        false
    }

    /// The IPv4 address the FTP server should advertise: the recommendation
    /// (`recommend_from`) from the system's adapter listing, and, only when no
    /// listed adapter qualified, the system's primary address. No
    /// connected-adapter information is used: this library does not query
    /// the Windows adapter table, and without it the listing is not filtered.
    /// What the system reports is not known in advance: the result is the
    /// recommendation for some listing and primary address, and IPv4 text.
    pub fn recommended_ip() -> (r: Option<String>)
        ensures
            exists|l: Result<Vec<(String, String)>, String>, p: Result<String, String>|
                crate::ftp::opt_view(r) == #[trigger] spec_recommend(l, Seq::empty(), p),
            r is Some ==> parse_ipv4_spec(r->0@) is Some,
    {
        let listed = list_adapter_addresses();
        let any_usable = match &listed {
            Ok(raw) => Self::has_usable_entry(raw),
            Err(_) => false,
        };
        let primary = if any_usable {
            Err(String::new())
        } else {
            local_primary_ip()
        };
        let no_adapter_info: Vec<(String, u32)> = Vec::new();
        Self::recommend_from(listed, &no_adapter_info, primary)
    }
}

proof fn lemma_split_concat(a: Seq<char>, b: Seq<char>)
    ensures
        split_on(a + seq!['.'] + b, '.') =~= split_on(a, '.') + split_on(b, '.'),
    decreases b.len(),
{
    let ab = a + seq!['.'] + b;
    if b.len() == 0 {
        assert(ab.drop_last() =~= a);
    } else {
        let b1 = b.drop_last();
        assert(ab.drop_last() =~= a + seq!['.'] + b1);
        lemma_split_concat(a, b1);
        lemma_split_on_nonempty(b1, '.');
        lemma_split_on_nonempty(a, '.');
    }
}

proof fn lemma_split_no_dot(d: Seq<char>)
    requires
        forall|i: int| 0 <= i < d.len() ==> d[i] != '.',
    ensures
        split_on(d, '.') =~= seq![d],
    decreases d.len(),
{
    if d.len() > 0 {
        let t = d.drop_last();
        assert forall|i: int| 0 <= i < t.len() implies t[i] != '.' by {
            assert(t[i] == d[i]);
        }
        lemma_split_no_dot(t);
        assert(d[d.len() - 1] != '.');
        assert(t.push(d.last()) =~= d);
        assert(seq![t].update(0, t.push(d.last())) =~= seq![d]);
        assert(split_on(t, '.') =~= seq![t]);
        assert(split_on(d, '.') == split_on(t, '.').update(0, t.push(d.last())));
        assert(split_on(d, '.') == seq![t].update(0, t.push(d.last())));
        assert(split_on(d, '.') =~= seq![d]);
    } else {
        assert(d =~= Seq::<char>::empty());
        assert(split_on(d, '.') =~= seq![d]);
    }
}

proof fn lemma_decimal_props(n: nat)
    ensures
        decimal(n).len() >= 1,
        all_digits(decimal(n)),
        forall|i: int| 0 <= i < decimal(n).len() ==> decimal(n)[i] != '.',
        digits_value(decimal(n)) == n,
        n > 0 ==> decimal(n)[0] != '0',
        n < 10 ==> decimal(n).len() == 1,
        n < 100 ==> decimal(n).len() <= 2,
        n < 1000 ==> decimal(n).len() <= 3,
    decreases n,
{
    let d = decimal(n);
    assert(digits_value(Seq::<char>::empty()) == 0);
    if n < 10 {
        lemma_digit_char(n);
        assert(d.drop_last() =~= Seq::<char>::empty());
    } else {
        lemma_digit_char(n % 10);
        lemma_decimal_props(n / 10);
        let p = decimal(n / 10);
        assert(d =~= p.push(crate::text::digit_char(n % 10)));
        assert(d.drop_last() =~= p);
        assert(d[0] == p[0]);
        assert forall|i: int| 0 <= i < d.len() implies crate::text::is_digit(#[trigger] d[i]) by {
            if i < p.len() {
                assert(d[i] == p[i]);
            }
        }
    }
}

proof fn lemma_digit_char(x: nat)
    requires
        x < 10,
    ensures
        crate::text::digit_value(crate::text::digit_char(x)) == x,
        crate::text::is_digit(crate::text::digit_char(x)),
        crate::text::digit_char(x) != '.',
        x > 0 ==> crate::text::digit_char(x) != '0',
{
}

/// Dotted-quad text of four octets parses back to the same octets.
pub proof fn lemma_ipv4_roundtrip(o: [u8; 4])
    ensures
        parse_ipv4_spec(ipv4_text(o)) == Some(o),
{
    let d0 = decimal(o[0] as nat);
    let d1 = decimal(o[1] as nat);
    let d2 = decimal(o[2] as nat);
    let d3 = decimal(o[3] as nat);
    lemma_decimal_props(o[0] as nat);
    lemma_decimal_props(o[1] as nat);
    lemma_decimal_props(o[2] as nat);
    lemma_decimal_props(o[3] as nat);
    reveal_strlit(".");
    assert("."@ =~= seq!['.']);
    let t = ipv4_text(o);
    assert(t =~= ((d0 + seq!['.'] + d1) + seq!['.'] + d2) + seq!['.'] + d3);
    lemma_split_concat((d0 + seq!['.'] + d1) + seq!['.'] + d2, d3);
    lemma_split_concat(d0 + seq!['.'] + d1, d2);
    lemma_split_concat(d0, d1);
    lemma_split_no_dot(d0);
    lemma_split_no_dot(d1);
    lemma_split_no_dot(d2);
    lemma_split_no_dot(d3);
    let parts = split_on(t, '.');
    assert(parts =~= seq![d0, d1, d2, d3]);
    assert(octet_value(d0) == Some(o[0]));
    assert(octet_value(d1) == Some(o[1]));
    assert(octet_value(d2) == Some(o[2]));
    assert(octet_value(d3) == Some(o[3]));
    assert(parse_ipv4_spec(t) =~= Some(o));
}

/// Normalising a host to IPv4 text is idempotent.
pub proof fn lemma_normalize_ipv4_idempotent(host: Seq<char>)
    ensures
        spec_normalize_ipv4_host(spec_normalize_ipv4_host(host)) == spec_normalize_ipv4_host(host),
{
    match parse_ipv4_spec(host) {
        Some(o) => {
            lemma_ipv4_roundtrip(o);
        },
        None => {
            lemma_ipv4_roundtrip([127u8, 0u8, 0u8, 1u8]);
            reveal_strlit("127.0.0.1");
            reveal_strlit(".");
            lemma_decimal_props(127);
            lemma_decimal_props(0);
            lemma_decimal_props(1);
            assert(decimal(127) =~= seq!['1', '2', '7']) by {
                reveal_with_fuel(decimal, 4);
            }
            assert(ipv4_text([127u8, 0u8, 0u8, 1u8]) =~= "127.0.0.1"@);
        },
    }
}

/// `local_ip_address::list_afinet_netifas`: the (adapter name, address text)
/// pairs of the system's IPv4/IPv6 addresses, or the error text. The listing
/// depends on the machine, so nothing is stated of it.
#[verifier::external_body]
fn list_adapter_addresses() -> (r: Result<Vec<(String, String)>, String>) {
    local_ip_address::list_afinet_netifas().map(|v| v.into_iter().map(|(n, ip)| (n, ip.to_string())).collect()).map_err(|e| e.to_string())
}

/// `local_ip_address::local_ip`: the address text of the system's primary IPv4
/// address, or the error text. Depends on the machine; nothing is stated of it.
#[verifier::external_body]
fn local_primary_ip() -> (r: Result<String, String>) {
    local_ip_address::local_ip().map(|ip| ip.to_string()).map_err(|e| e.to_string())
}

} // verus!
