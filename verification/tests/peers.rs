use snoopy::addr::VirtualAddr;
use snoopy::config::Peer;
use snoopy::logging::LogLevel;
use snoopy::peers::PeerTable;

fn peer(addr: VirtualAddr, endpoint: &str) -> Peer {
    Peer { virtual_address: addr, endpoint: endpoint.to_string() }
}

#[test]
fn lookup_finds_each_peer() {
    let peers = vec![
        peer(VirtualAddr::from_v4_octets([10, 0, 0, 2]), "198.51.100.2:51820"),
        peer(VirtualAddr::from_v4_octets([10, 0, 0, 3]), "198.51.100.3:51820"),
        peer(VirtualAddr::V6(0xfd00_0000_0000_0000_0000_0000_0000_0002), "peer.example:4000"),
    ];
    let table = PeerTable::from_peers(&peers);
    assert_eq!(
        table.lookup(VirtualAddr::V4(0x0a00_0002)),
        Some(&"198.51.100.2:51820".to_string())
    );
    assert_eq!(
        table.lookup(VirtualAddr::V4(0x0a00_0003)),
        Some(&"198.51.100.3:51820".to_string())
    );
    assert_eq!(
        table.lookup(VirtualAddr::V6(0xfd00_0000_0000_0000_0000_0000_0000_0002)),
        Some(&"peer.example:4000".to_string())
    );
}

#[test]
fn lookup_misses_an_absent_address() {
    let peers = vec![peer(VirtualAddr::V4(0x0a00_0002), "198.51.100.2:51820")];
    let table = PeerTable::from_peers(&peers);
    assert_eq!(table.lookup(VirtualAddr::V4(0x0a00_0004)), None);
    assert_eq!(table.lookup(VirtualAddr::V6(0x0a00_0002)), None);
}

#[test]
fn lookup_in_an_empty_table_finds_nothing() {
    let table = PeerTable::from_peers(&Vec::new());
    assert_eq!(table.lookup(VirtualAddr::V4(0)), None);
    assert_eq!(table.lookup(VirtualAddr::V6(0)), None);
}

#[test]
fn later_peer_keeps_a_shared_address() {
    let peers = vec![
        peer(VirtualAddr::V4(0x0a00_0002), "first.example:1"),
        peer(VirtualAddr::V4(0x0a00_0003), "other.example:2"),
        peer(VirtualAddr::V4(0x0a00_0002), "second.example:3"),
    ];
    let table = PeerTable::from_peers(&peers);
    assert_eq!(table.lookup(VirtualAddr::V4(0x0a00_0002)), Some(&"second.example:3".to_string()));
    assert_eq!(table.lookup(VirtualAddr::V4(0x0a00_0003)), Some(&"other.example:2".to_string()));
}

#[test]
fn same_number_in_both_families_are_two_addresses() {
    let peers = vec![
        peer(VirtualAddr::V4(5), "four.example:1"),
        peer(VirtualAddr::V6(5), "six.example:1"),
    ];
    let table = PeerTable::from_peers(&peers);
    assert_eq!(table.lookup(VirtualAddr::V4(5)), Some(&"four.example:1".to_string()));
    assert_eq!(table.lookup(VirtualAddr::V6(5)), Some(&"six.example:1".to_string()));
}

#[test]
fn level_is_selected_by_name() {
    assert_eq!(LogLevel::from_setting(Some("TRACE")), LogLevel::Trace);
    assert_eq!(LogLevel::from_setting(Some("DEBUG")), LogLevel::Debug);
    assert_eq!(LogLevel::from_setting(Some("INFO")), LogLevel::Info);
    assert_eq!(LogLevel::from_setting(Some("WARN")), LogLevel::Warn);
    assert_eq!(LogLevel::from_setting(Some("ERROR")), LogLevel::Error);
}

#[test]
fn level_defaults_to_info() {
    assert_eq!(LogLevel::from_setting(None), LogLevel::Info);
    assert_eq!(LogLevel::from_setting(Some("")), LogLevel::Info);
    assert_eq!(LogLevel::from_setting(Some("trace")), LogLevel::Info);
    assert_eq!(LogLevel::from_setting(Some("VERBOSE")), LogLevel::Info);
    assert_eq!(LogLevel::from_setting(Some("ERROR ")), LogLevel::Info);
}
