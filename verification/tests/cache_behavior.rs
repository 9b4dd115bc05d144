use dnscache::{CacheEntry, DnsCache, Hostname, IpAddress, SocketAddress};

fn host(raw: &[u8]) -> Hostname {
    Hostname::from_bytes(&raw.to_vec()).expect("hostname should be acceptable")
}

fn entry(octet: u8, expires_at_ms: u64) -> CacheEntry {
    CacheEntry {
        addrs: vec![SocketAddress { ip: IpAddress::v4_from_octets(10, 0, 0, octet), port: 0 }],
        expires_at_ms,
    }
}

#[test]
fn lookup_serves_stored_record_until_expiry() {
    let mut cache = DnsCache::new(8);
    cache.store(host(b"a.test"), entry(1, 500));

    let served = cache.lookup(&host(b"a.test"), 499).expect("still valid");
    assert_eq!(served, vec![SocketAddress { ip: IpAddress::V4(0x0a000001), port: 0 }]);
    assert!(cache.lookup(&host(b"a.test"), 500).is_none());
    assert!(cache.lookup(&host(b"b.test"), 0).is_none());
}

#[test]
fn store_overwrites_existing_key_in_place() {
    let mut cache = DnsCache::new(2);
    cache.store(host(b"a.test"), entry(1, 500));
    cache.store(host(b"b.test"), entry(2, 500));
    cache.store(host(b"a.test"), entry(3, 900));

    let served = cache.lookup(&host(b"a.test"), 600).expect("refreshed record");
    assert_eq!(served, vec![SocketAddress { ip: IpAddress::V4(0x0a000003), port: 0 }]);
    assert!(cache.lookup(&host(b"b.test"), 0).is_some());
}

#[test]
fn full_cache_evicts_the_oldest_entry() {
    let mut cache = DnsCache::new(2);
    cache.store(host(b"a.test"), entry(1, 1000));
    cache.store(host(b"b.test"), entry(2, 1000));
    cache.store(host(b"c.test"), entry(3, 1000));

    assert!(cache.lookup(&host(b"a.test"), 0).is_none(), "oldest entry evicted");
    assert!(cache.lookup(&host(b"b.test"), 0).is_some());
    assert!(cache.lookup(&host(b"c.test"), 0).is_some());
}

#[test]
fn capacity_one_cache_holds_the_latest_key() {
    let mut cache = DnsCache::new(1);
    cache.store(host(b"a.test"), entry(1, 1000));
    cache.store(host(b"b.test"), entry(2, 1000));
    assert!(cache.lookup(&host(b"a.test"), 0).is_none());
    let served = cache.lookup(&host(b"b.test"), 0).expect("latest key present");
    assert_eq!(served, vec![SocketAddress { ip: IpAddress::V4(0x0a000002), port: 0 }]);
}
