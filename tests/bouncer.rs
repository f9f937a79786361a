use axtra::{decide_step, pick_address, BouncerConfig, BouncerLayer, ClientAddr, Decision, LogLevel, StoreOp, Verdict};

fn ip(a: u8, b: u8, c: u8, d: u8) -> ClientAddr {
    ClientAddr::V4(u32::from_be_bytes([a, b, c, d]))
}

fn bans_of(layer: &BouncerLayer) -> Vec<(ClientAddr, u64)> {
    layer.banlist().snapshot()
}

#[test]
fn concrete_ban_then_expiry() {
    let config = BouncerConfig::from_custom_rules(&["/wp-login.php"])
        .duration(1000)
        .banned_response(403)
        .blocked_response(403);
    let layer = BouncerLayer::new(config);
    let a = ip(10, 0, 0, 5);

    assert_eq!(layer.check(Some(a), "/wp-login.php", 0).verdict, Verdict::Blocked(403));
    assert_eq!(bans_of(&layer), vec![(a, 1000)]);

    assert_eq!(layer.check(Some(a), "/", 500).verdict, Verdict::Banned(403));
    assert_eq!(bans_of(&layer), vec![(a, 1000)]);

    assert_eq!(layer.check(Some(a), "/", 1000).verdict, Verdict::Forward);
    assert!(bans_of(&layer).is_empty());
}

#[test]
fn unseen_address_is_forwarded_repeatedly() {
    let layer = BouncerLayer::new(BouncerConfig::from_preset_rules(&["wordpress"]));
    let a = ip(192, 168, 1, 1);
    for t in 0..20u64 {
        assert_eq!(layer.check(Some(a), "/index.html", t * 1000).verdict, Verdict::Forward);
        assert!(bans_of(&layer).is_empty());
    }
}

#[test]
fn tripwire_bans_with_blocked_status() {
    let config = BouncerConfig::from_preset_rules(&["php"])
        .blocked_response(404)
        .banned_response(401)
        .duration(60000);
    let layer = BouncerLayer::new(config);
    let a = ClientAddr::V6(0x2001_0db8_0000_0000_0000_0000_0000_0001);
    assert_eq!(layer.check(Some(a), "/phpmyadmin", 7).verdict, Verdict::Blocked(404));
    assert_eq!(layer.banlist().lookup(a), Some(60007));
    assert_eq!(layer.check(Some(a), "/", 8).verdict, Verdict::Banned(401));
    assert_eq!(layer.check(Some(a), "/phpmyadmin", 60006).verdict, Verdict::Banned(401));
    assert_eq!(layer.banlist().lookup(a), Some(60007));
}

#[test]
fn ban_is_not_extended_by_probing() {
    let layer = BouncerLayer::new(BouncerConfig::from_custom_rules(&["/x"]).duration(100));
    let a = ip(1, 2, 3, 4);
    assert_eq!(layer.check(Some(a), "/x", 10).verdict, Verdict::Blocked(403));
    assert_eq!(layer.check(Some(a), "/x", 50).verdict, Verdict::Banned(403));
    assert_eq!(layer.banlist().lookup(a), Some(110));
}

#[test]
fn expired_ban_on_tripwire_rebans() {
    let layer = BouncerLayer::new(BouncerConfig::from_custom_rules(&["/x"]).duration(100));
    let a = ip(1, 2, 3, 4);
    assert_eq!(layer.check(Some(a), "/x", 10).verdict, Verdict::Blocked(403));
    assert_eq!(layer.check(Some(a), "/x", 110).verdict, Verdict::Blocked(403));
    assert_eq!(bans_of(&layer), vec![(a, 210)]);
}

#[test]
fn unknown_address_bypasses_tripwires() {
    let layer = BouncerLayer::new(BouncerConfig::from_custom_rules(&["/x"]));
    assert_eq!(layer.check(None, "/x", 0).verdict, Verdict::Forward);
    assert_eq!(layer.check(None, "/x", 1).verdict, Verdict::Forward);
    assert!(bans_of(&layer).is_empty());
}

#[test]
fn other_addresses_are_unaffected() {
    let layer = BouncerLayer::new(BouncerConfig::from_custom_rules(&["/x"]).duration(100));
    let a = ip(1, 2, 3, 4);
    let b = ip(1, 2, 3, 5);
    let b6 = ClientAddr::V6(u32::from_be_bytes([1, 2, 3, 4]) as u128);
    assert_eq!(layer.check(Some(a), "/x", 0).verdict, Verdict::Blocked(403));
    assert_eq!(layer.check(Some(b), "/", 1).verdict, Verdict::Forward);
    assert_eq!(layer.check(Some(b6), "/", 1).verdict, Verdict::Forward);
    assert_eq!(bans_of(&layer).len(), 1);
}

#[test]
fn clones_share_the_ban_list() {
    let layer = BouncerLayer::new(BouncerConfig::from_custom_rules(&["/x"]));
    let first = layer.clone();
    let second = layer.clone();
    let a = ip(9, 9, 9, 9);
    assert_eq!(first.check(Some(a), "/x", 0).verdict, Verdict::Blocked(403));
    assert_eq!(second.check(Some(a), "/", 1).verdict, Verdict::Banned(403));
    assert_eq!(layer.banlist().lookup(a), Some(3600000));
}

#[test]
fn expiry_saturates_at_the_end_of_the_clock() {
    let layer = BouncerLayer::new(BouncerConfig::from_custom_rules(&["/x"]).duration(u64::MAX));
    let a = ip(1, 1, 1, 1);
    assert_eq!(layer.check(Some(a), "/x", 5).verdict, Verdict::Blocked(403));
    assert_eq!(layer.banlist().lookup(a), Some(u64::MAX));
}

#[test]
fn defaults_of_a_config() {
    let c = BouncerConfig::from_rules(&["wordpress", "config"], &["/custom"]);
    assert_eq!(c.ban_duration, 3_600_000);
    assert_eq!(c.banned_status, 403);
    assert_eq!(c.blocked_status, 403);
    assert_eq!(c.log_level, LogLevel::Debug);
    assert!(c.blocked_paths.contains("/custom"));
    assert!(c.blocked_paths.contains("/xmlrpc.php"));
    let c = c.log_level(LogLevel::Info);
    assert_eq!(c.log_level, LogLevel::Info);
}

#[test]
fn verdict_status() {
    assert_eq!(Verdict::Forward.status(), None);
    assert_eq!(Verdict::Banned(401).status(), Some(401));
    assert_eq!(Verdict::Blocked(404).status(), Some(404));
    assert!(!Verdict::Forward.is_denied());
    assert!(Verdict::Blocked(404).is_denied());
}

#[test]
fn address_sources_in_order() {
    let h = ip(1, 1, 1, 1);
    let e = ip(2, 2, 2, 2);
    let p = ip(3, 3, 3, 3);
    assert_eq!(pick_address(Some(h), Some(e), Some(p)), Some(h));
    assert_eq!(pick_address(None, Some(e), Some(p)), Some(e));
    assert_eq!(pick_address(None, None, Some(p)), Some(p));
    assert_eq!(pick_address(None, None, None), None);
}

#[test]
fn address_keys_round_trip() {
    let a = ip(10, 0, 0, 5);
    assert_eq!(a.key(), (4, 0x0a00_0005));
    assert_eq!(ClientAddr::from_key(a.key()), a);
    let b = ClientAddr::V6(0x0a00_0005);
    assert_eq!(b.key(), (6, 0x0a00_0005));
    assert_eq!(ClientAddr::from_key(b.key()), b);
}

#[test]
fn snapshot_lists_each_ban_once() {
    let layer = BouncerLayer::new(BouncerConfig::from_custom_rules(&["/x"]).duration(10));
    let a = ip(1, 0, 0, 1);
    let b = ip(1, 0, 0, 2);
    layer.check(Some(a), "/x", 0);
    layer.check(Some(b), "/x", 5);
    let mut snap = bans_of(&layer);
    snap.sort_by_key(|e| e.1);
    assert_eq!(snap, vec![(a, 10), (b, 15)]);
}

#[test]
fn monitoring_handle_is_live() {
    let layer = BouncerLayer::new(BouncerConfig::from_custom_rules(&["/x"]).duration(10));
    let handle = layer.banlist();
    let a = ip(4, 4, 4, 4);
    assert!(handle.snapshot().is_empty());
    layer.check(Some(a), "/x", 1);
    assert_eq!(handle.lookup(a), Some(11));
    assert_eq!(handle.snapshot(), vec![(a, 11)]);
}

#[test]
fn check_reports_what_it_read_and_wrote() {
    let layer = BouncerLayer::new(BouncerConfig::from_custom_rules(&["/x"]).duration(10));
    let a = ip(5, 5, 5, 5);
    assert_eq!(
        layer.check(Some(a), "/x", 0),
        Decision { found: None, op: StoreOp::Ban(10), verdict: Verdict::Blocked(403) }
    );
    assert_eq!(
        layer.check(Some(a), "/", 3),
        Decision { found: Some(10), op: StoreOp::Keep, verdict: Verdict::Banned(403) }
    );
    assert_eq!(
        layer.check(Some(a), "/", 10),
        Decision { found: Some(10), op: StoreOp::Clear, verdict: Verdict::Forward }
    );
    assert_eq!(
        layer.check(None, "/x", 11),
        Decision { found: None, op: StoreOp::Keep, verdict: Verdict::Forward }
    );
}

#[test]
fn decide_step_on_read_values() {
    let cfg = BouncerConfig::from_custom_rules(&["/x"]).duration(100).banned_response(401).blocked_response(404);
    let a = Some(ip(6, 6, 6, 6));
    assert_eq!(decide_step(&cfg, a, None, "/", 0), (StoreOp::Keep, Verdict::Forward));
    assert_eq!(decide_step(&cfg, a, None, "/x", 5), (StoreOp::Ban(105), Verdict::Blocked(404)));
    assert_eq!(decide_step(&cfg, a, Some(50), "/", 49), (StoreOp::Keep, Verdict::Banned(401)));
    assert_eq!(decide_step(&cfg, a, Some(50), "/x", 49), (StoreOp::Keep, Verdict::Banned(401)));
    assert_eq!(decide_step(&cfg, a, Some(50), "/", 50), (StoreOp::Clear, Verdict::Forward));
    assert_eq!(decide_step(&cfg, a, Some(50), "/x", 50), (StoreOp::Ban(150), Verdict::Blocked(404)));
    assert_eq!(decide_step(&cfg, None, Some(50), "/x", 0), (StoreOp::Keep, Verdict::Forward));
    assert_eq!(decide_step(&cfg, a, None, "/x", u64::MAX - 1), (StoreOp::Ban(u64::MAX), Verdict::Blocked(404)));
}

#[test]
fn snapshot_of_skips_foreign_keys() {
    let entries = vec![((4u8, 0x0a00_0005u128), 7u64), ((4, 1u128 << 40), 8), ((5, 1), 9), ((6, 3), 10)];
    assert_eq!(
        axtra::banlist::snapshot_of(&entries),
        vec![(ClientAddr::V4(0x0a00_0005), 7), (ClientAddr::V6(3), 10)]
    );
    assert!(axtra::banlist::snapshot_of(&Vec::new()).is_empty());
}
