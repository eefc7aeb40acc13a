//! The metadata store: persistence round trips, pagination, and the
//! full-document update.

use pixure::error::ResourceIOError;
use pixure::resource::Resource;
use pixure::seaweed::SeaweedFsId;
use pixure::store::{MetadataStore, PaginationOptions};
use pixure::user::{User, UserReq};

fn persisted(store: &mut MetadataStore<SeaweedFsId>, name: &str) -> User {
    let req = UserReq::new(name.to_string(), "pw".to_string());
    let user = User::new(&req);
    let id = store.save_user(user);
    User::new(&req).with_id(id)
}

fn allocated_resource(owner: &User, content_type: &str, fid: &str) -> Resource<SeaweedFsId> {
    let mut res: Resource<SeaweedFsId> = Resource::from_field(content_type, owner);
    res.allocate(SeaweedFsId::new(fid.to_string()));
    res
}

#[test]
fn persist_then_find_round_trip() {
    let mut store: MetadataStore<SeaweedFsId> = MetadataStore::new();
    let alice = persisted(&mut store, "alice");
    let res = allocated_resource(&alice, "image/jpeg", "3,abc");
    let owner = res.get_owner();
    let access = res.get_access().clone();
    let id = store.save_resource(res);
    let found = store.find_resource(id).expect("the record was persisted");
    assert_eq!(found.get_id(), Some(id));
    assert_eq!(found.get_owner(), owner);
    assert_eq!(found.get_extension().as_str(), "image/jpeg");
    assert_eq!(found.get_access(), &access);
    assert!(!found.is_read_public());
    assert!(!found.is_write_public());
    assert_eq!(found.get_storage().as_ref().unwrap().get_uid().as_str(), "3,abc");
}

#[test]
fn find_resource_misses_on_unknown_id() {
    let mut store: MetadataStore<SeaweedFsId> = MetadataStore::new();
    let alice = persisted(&mut store, "alice");
    let id = store.save_resource(allocated_resource(&alice, "image/jpeg", "3,abc"));
    let missing = pixure::resource::DocId { raw: id.raw + 1 };
    assert!(store.find_resource(missing).is_none());
}

#[test]
fn pagination_pages_are_disjoint_contiguous_and_cover() {
    let mut store: MetadataStore<SeaweedFsId> = MetadataStore::new();
    let alice = persisted(&mut store, "alice");
    let bob = persisted(&mut store, "bob");
    let mut alice_fids: Vec<String> = Vec::new();
    for k in 0..15u32 {
        let fid = format!("3,a{}", k);
        store.save_resource(allocated_resource(&alice, "image/jpeg", &fid));
        alice_fids.push(fid);
        // interleave records of another owner
        store.save_resource(allocated_resource(&bob, "image/png", &format!("4,b{}", k)));
    }
    let page0 = store.find_owned_resources(alice.get_id().unwrap(), &PaginationOptions::new(0, 10));
    let page1 = store.find_owned_resources(alice.get_id().unwrap(), &PaginationOptions::new(1, 10));
    assert_eq!(page0.len(), 10);
    assert_eq!(page1.len(), 5);
    let mut seen: Vec<String> = Vec::new();
    for r in page0.iter().chain(page1.iter()) {
        assert_eq!(r.get_owner(), alice.get_id().unwrap());
        seen.push(r.get_storage().as_ref().unwrap().get_uid().clone());
    }
    // contiguous, in store order, disjoint, and covering all 15
    assert_eq!(seen, alice_fids);
    let page2 = store.find_owned_resources(alice.get_id().unwrap(), &PaginationOptions::new(2, 10));
    assert!(page2.is_empty());
}

#[test]
fn pagination_skips_whole_pages() {
    let mut store: MetadataStore<SeaweedFsId> = MetadataStore::new();
    let alice = persisted(&mut store, "alice");
    for k in 0..7u32 {
        store.save_resource(allocated_resource(&alice, "image/jpeg", &format!("3,a{}", k)));
    }
    let page = store.find_owned_resources(alice.get_id().unwrap(), &PaginationOptions::new(2, 3));
    assert_eq!(page.len(), 1);
    assert_eq!(page[0].get_storage().as_ref().unwrap().get_uid().as_str(), "3,a6");
}

#[test]
fn batch_size_is_bounded_below() {
    assert_eq!(PaginationOptions::new(0, 10).batch_size(), 50);
    assert_eq!(PaginationOptions::new(0, 50).batch_size(), 50);
    assert_eq!(PaginationOptions::new(0, 60).batch_size(), 60);
}

#[test]
fn update_resource_replaces_the_stored_document() {
    let mut store: MetadataStore<SeaweedFsId> = MetadataStore::new();
    let alice = persisted(&mut store, "alice");
    let res = allocated_resource(&alice, "image/jpeg", "3,abc");
    let id = store.save_resource(res);
    let mut changed = allocated_resource(&alice, "image/jpeg", "3,abc").with_id(id);
    changed.update_public_access(Some(true), None);
    assert!(store.update_resource(changed).is_ok());
    let found = store.find_resource(id).expect("still stored");
    assert!(found.is_read_public());
    assert!(!found.is_write_public());
}

#[test]
fn update_resource_without_id_fails_with_missing_identifier() {
    let mut store: MetadataStore<SeaweedFsId> = MetadataStore::new();
    let alice = persisted(&mut store, "alice");
    let res = allocated_resource(&alice, "image/jpeg", "3,abc");
    match store.update_resource(res) {
        Err(ResourceIOError::MissingIdentifier) => {},
        _ => panic!("an update without an identifier must fail with MissingIdentifier"),
    }
}

#[test]
fn resource_error_messages() {
    assert_eq!(
        ResourceIOError::InsufficientPermissions("reading".to_string()).message(),
        "InsufficientPermissions: cannot reading resource"
    );
    assert_eq!(
        ResourceIOError::NotAllocated.message(),
        "NotAllocated: no storage handle exists"
    );
    assert_eq!(
        ResourceIOError::AllocationError("down".to_string()).message(),
        "AllocationError: down"
    );
    assert_eq!(ResourceIOError::UploadError("503".to_string()).message(), "UploadError: 503");
    assert_eq!(
        ResourceIOError::DownloadError("404".to_string()).message(),
        "DownloadError: 404"
    );
    assert_eq!(ResourceIOError::DatabaseError("io".to_string()).message(), "DatabaseError: io");
    assert_eq!(
        ResourceIOError::MissingIdentifier.message(),
        "MissingIdentifier: resource has no identifier"
    );
}
