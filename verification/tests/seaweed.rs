//! Backend identifiers, the volume-address cache, and the request URLs.

use pixure::seaweed::SeaweedFsId;
use pixure::seaweed_client::{
    file_url, AddrResolution, AssignId, SeaweedFsClient, VolumeLocation, VolumeLookup, CACHE_CAP,
};

#[test]
fn parse_volume_reads_the_digits_before_the_comma() {
    assert_eq!(SeaweedFsId::new("3,01637037d6".to_string()).parse_volume(), Some(3));
    assert_eq!(SeaweedFsId::new("327,x".to_string()).parse_volume(), Some(327));
    assert_eq!(SeaweedFsId::new("7".to_string()).parse_volume(), Some(7));
    assert_eq!(SeaweedFsId::new("32767,k".to_string()).parse_volume(), Some(32767));
}

#[test]
fn parse_volume_rejects_malformed_identifiers() {
    assert_eq!(SeaweedFsId::new("".to_string()).parse_volume(), None);
    assert_eq!(SeaweedFsId::new(",abc".to_string()).parse_volume(), None);
    assert_eq!(SeaweedFsId::new("abc".to_string()).parse_volume(), None);
    assert_eq!(SeaweedFsId::new("12x,abc".to_string()).parse_volume(), None);
    assert_eq!(SeaweedFsId::new("32768,k".to_string()).parse_volume(), None);
    assert_eq!(SeaweedFsId::new("-3,k".to_string()).parse_volume(), None);
}

#[test]
fn get_volume_agrees_with_parse_volume() {
    let fid = SeaweedFsId::new("42,beef".to_string());
    assert_eq!(fid.get_volume(), 42);
}

#[test]
fn handle_identity_survives_uid_round_trip() {
    let fid = SeaweedFsId::new("3,abc".to_string());
    let copied = SeaweedFsId::from_uid(fid.get_uid().clone());
    assert_eq!(copied.get_uid(), fid.get_uid());
    let cloned = fid.clone();
    assert_eq!(cloned.get_uid(), fid.get_uid());
}

#[test]
fn cached_volume_is_answered_without_a_directory_query() {
    // The cache holds an address for volume 3: a second lookup for volume 3
    // is served from the cache and never yields a query.
    let mut client = SeaweedFsClient::new("5.1.1.1:9333".to_string());
    client.cache_volume_addr(3, "10.0.0.7:8080".to_string());
    match client.resolve_volume_addr(3) {
        AddrResolution::Cached(addr) => assert_eq!(addr, "10.0.0.7:8080"),
        AddrResolution::Query(_) => panic!("a cached volume must not be re-queried"),
    }
    // and again: the lookup borrows the client immutably, nothing changed.
    match client.resolve_volume_addr(3) {
        AddrResolution::Cached(addr) => assert_eq!(addr, "10.0.0.7:8080"),
        AddrResolution::Query(_) => panic!("a cached volume must not be re-queried"),
    }
}

#[test]
fn uncached_volume_directs_to_the_directory_service() {
    let client = SeaweedFsClient::new("5.1.1.1:9333".to_string());
    match client.resolve_volume_addr(3) {
        AddrResolution::Query(url) => {
            assert_eq!(url, "http://5.1.1.1:9333/dir/lookup?volumeId=3")
        },
        AddrResolution::Cached(_) => panic!("an empty cache cannot answer"),
    }
}

#[test]
fn caching_replaces_the_address_of_the_same_volume() {
    let mut client = SeaweedFsClient::new("5.1.1.1:9333".to_string());
    client.cache_volume_addr(3, "10.0.0.7:8080".to_string());
    client.cache_volume_addr(3, "10.0.0.9:8080".to_string());
    assert_eq!(client.cache_len(), 1);
    assert_eq!(client.get_volume_addr(3), Some("10.0.0.9:8080".to_string()));
}

#[test]
fn cache_is_bounded_and_evicts_the_oldest_entry() {
    let mut client = SeaweedFsClient::new("5.1.1.1:9333".to_string());
    for v in 0..(CACHE_CAP as i16 + 1) {
        client.cache_volume_addr(v, format!("10.0.0.{}:8080", v));
    }
    assert_eq!(client.cache_len(), CACHE_CAP);
    assert_eq!(client.get_volume_addr(0), None, "the oldest entry was evicted");
    assert_eq!(client.get_volume_addr(1), Some("10.0.0.1:8080".to_string()));
    assert_eq!(
        client.get_volume_addr(CACHE_CAP as i16),
        Some(format!("10.0.0.{}:8080", CACHE_CAP))
    );
}

#[test]
fn directory_answers_carry_locations_and_assignments() {
    let lookup = VolumeLookup::new(vec![
        VolumeLocation::new("10.0.0.7:8080".to_string()),
        VolumeLocation::new("10.0.0.8:8080".to_string()),
    ]);
    assert_eq!(lookup.first_location().unwrap().get_url().as_str(), "10.0.0.7:8080");
    let empty = VolumeLookup::new(Vec::new());
    assert!(empty.first_location().is_none());
    let assigned = AssignId::new("3,01637037d6".to_string());
    assert_eq!(assigned.get_fid().as_str(), "3,01637037d6");
    let handle = SeaweedFsId::new(assigned.get_fid().clone());
    assert_eq!(handle.get_volume(), 3);
}

#[test]
fn request_urls_match_the_backend_protocol() {
    let client = SeaweedFsClient::new("5.1.1.1:9333".to_string());
    assert_eq!(client.lookup_url(3), "http://5.1.1.1:9333/dir/lookup?volumeId=3");
    assert_eq!(client.lookup_url(12840), "http://5.1.1.1:9333/dir/lookup?volumeId=12840");
    assert_eq!(client.assign_url(), "http://5.1.1.1:9333/dir/assign");
    assert_eq!(
        file_url("10.0.0.7:8080", "3,01637037d6"),
        "http://10.0.0.7:8080/3,01637037d6"
    );
}
