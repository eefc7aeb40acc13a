//! The permission policy and the allocation protocol of `Resource`.

use pixure::error::ResourceIOError;
use pixure::resource::{get_size, DocId, Resource, UseType};
use pixure::seaweed::SeaweedFsId;
use pixure::store::MetadataStore;
use pixure::user::{User, UserReq};

fn persisted_user(store: &mut MetadataStore<SeaweedFsId>, name: &str, password: &str) -> User {
    let req = UserReq::new(name.to_string(), password.to_string());
    let user = User::new(&req);
    assert!(!store.has_user_by_name(&user));
    store.save_user(user);
    let found = store.get_user(&req).expect("user was just saved");
    // `get_user` hands back a borrow; rebuild an owned copy through `login`-safe parts.
    let again = User::new(&req).with_id(found.get_id().expect("store assigns an id"));
    again
}

fn handle(fid: &str) -> SeaweedFsId {
    SeaweedFsId::new(fid.to_string())
}

#[test]
fn read_public_resource_serves_anonymous_reads() {
    let mut store: MetadataStore<SeaweedFsId> = MetadataStore::new();
    let alice = persisted_user(&mut store, "alice", "pw1");
    let mut res: Resource<SeaweedFsId> = Resource::from_field("image/jpeg", &alice);
    res.allocate(handle("3,01637037d6"));
    res.update_public_access(Some(true), None);
    let r = res.read(None);
    assert!(r.is_ok());
    assert_eq!(r.unwrap().get_uid().as_str(), "3,01637037d6");
}

#[test]
fn private_resource_denies_stranger_and_anonymous_reads() {
    let mut store: MetadataStore<SeaweedFsId> = MetadataStore::new();
    let alice = persisted_user(&mut store, "alice", "pw1");
    let bob = persisted_user(&mut store, "bob", "pw2");
    let mut res: Resource<SeaweedFsId> = Resource::from_field("image/jpeg", &alice);
    res.allocate(handle("3,01637037d6"));
    match res.read(Some(&bob)) {
        Err(ResourceIOError::InsufficientPermissions(op)) => assert_eq!(op, "reading"),
        _ => panic!("a stranger's read must be denied"),
    }
    match res.read(None) {
        Err(ResourceIOError::InsufficientPermissions(op)) => assert_eq!(op, "reading"),
        _ => panic!("an anonymous read of a private resource must be denied"),
    }
}

#[test]
fn owner_reads_own_private_resource() {
    let mut store: MetadataStore<SeaweedFsId> = MetadataStore::new();
    let alice = persisted_user(&mut store, "alice", "pw1");
    let mut res: Resource<SeaweedFsId> = Resource::from_field("image/jpeg", &alice);
    res.allocate(handle("3,01637037d6"));
    assert!(res.read(Some(&alice)).is_ok());
}

#[test]
fn allocate_twice_keeps_the_first_handle() {
    let mut store: MetadataStore<SeaweedFsId> = MetadataStore::new();
    let alice = persisted_user(&mut store, "alice", "pw1");
    let mut res: Resource<SeaweedFsId> = Resource::from_field("image/jpeg", &alice);
    res.allocate(handle("3,first"));
    res.allocate(handle("4,second"));
    let stored = res.get_storage().as_ref().expect("allocated");
    assert_eq!(stored.get_uid().as_str(), "3,first");
}

#[test]
fn save_before_allocate_fails_with_not_allocated() {
    let mut store: MetadataStore<SeaweedFsId> = MetadataStore::new();
    let alice = persisted_user(&mut store, "alice", "pw1");
    let res: Resource<SeaweedFsId> = Resource::from_field("image/jpeg", &alice);
    match res.save(Some(&alice)) {
        Err(ResourceIOError::NotAllocated) => {},
        _ => panic!("a save before allocation must fail with NotAllocated"),
    }
}

#[test]
fn write_check_is_scoped_to_the_requester() {
    // carol's write entry must not authorize bob, who may only read.
    let mut store: MetadataStore<SeaweedFsId> = MetadataStore::new();
    let alice = persisted_user(&mut store, "alice", "pw1");
    let bob = persisted_user(&mut store, "bob", "pw2");
    let carol = persisted_user(&mut store, "carol", "pw3");
    let base: Resource<SeaweedFsId> = Resource::from_field("image/jpeg", &alice);
    let mut access = base.get_access().clone();
    access.push(pixure::resource::AccessRight { user: bob.get_id().unwrap(), write: false });
    access.push(pixure::resource::AccessRight { user: carol.get_id().unwrap(), write: true });
    let mut res: Resource<SeaweedFsId> = Resource::from_parts(
        None,
        None,
        "image/jpeg".to_string(),
        base.get_owner(),
        access,
        false,
        false,
    );
    res.allocate(handle("3,01637037d6"));
    assert!(res.read(Some(&bob)).is_ok(), "a listed user may read");
    match res.save(Some(&bob)) {
        Err(ResourceIOError::InsufficientPermissions(op)) => assert_eq!(op, "writing"),
        _ => panic!("an entry without write must not authorize a write"),
    }
    assert!(res.save(Some(&carol)).is_ok(), "an entry with write authorizes its own user");
    assert!(res.save(Some(&alice)).is_ok(), "the owner always writes");
}

#[test]
fn update_public_access_is_partial() {
    let mut store: MetadataStore<SeaweedFsId> = MetadataStore::new();
    let alice = persisted_user(&mut store, "alice", "pw1");
    let mut res: Resource<SeaweedFsId> = Resource::from_field("image/jpeg", &alice);
    assert!(!res.is_read_public());
    assert!(!res.is_write_public());
    res.update_public_access(Some(true), None);
    assert!(res.is_read_public());
    assert!(!res.is_write_public());
    res.update_public_access(None, Some(true));
    assert!(res.is_read_public());
    assert!(res.is_write_public());
    res.update_public_access(Some(false), None);
    assert!(!res.is_read_public());
    assert!(res.is_write_public());
}

#[test]
fn from_field_sets_owner_defaults() {
    let mut store: MetadataStore<SeaweedFsId> = MetadataStore::new();
    let alice = persisted_user(&mut store, "alice", "pw1");
    let res: Resource<SeaweedFsId> = Resource::from_field("image/png", &alice);
    assert_eq!(res.get_owner(), alice.get_id().unwrap());
    assert_eq!(res.get_extension().as_str(), "image/png");
    assert!(res.get_id().is_none());
    assert!(res.get_storage().is_none());
    assert!(!res.is_read_public());
    assert!(!res.is_write_public());
    let access = res.get_access();
    assert_eq!(access.len(), 1);
    assert_eq!(access[0].user, alice.get_id().unwrap());
    assert!(access[0].write);
}

#[test]
fn upload_and_fetch_round_trip_bytes() {
    // alice uploads a JPEG: the resource is created private under her
    // ownership; bob cannot read it; alice reads the same bytes back.
    let mut store: MetadataStore<SeaweedFsId> = MetadataStore::new();
    let alice = persisted_user(&mut store, "alice", "pw1");
    let bob = persisted_user(&mut store, "bob", "pw2");
    let payload: Vec<u8> = vec![0xff, 0xd8, 0xff, 0xe0, 0x13, 0x37];

    // A stand-in blob node: fid to bytes.
    let mut blobs: Vec<(String, Vec<u8>)> = Vec::new();

    let mut res: Resource<SeaweedFsId> = Resource::from_field("image/jpeg", &alice);
    res.allocate(SeaweedFsId::new("3,01637037d6".to_string()));
    let write_handle = res.save(Some(&alice)).expect("the owner may write");
    blobs.push((write_handle.get_uid().clone(), payload.clone()));
    let id = store.save_resource(res);

    let fetched = store.find_resource(id).expect("the record was persisted");
    assert_eq!(fetched.get_owner(), alice.get_id().unwrap());
    assert!(!fetched.is_read_public());
    assert!(fetched.read(Some(&bob)).is_err(), "bob may not read alice's upload");
    let read_handle = fetched.read(Some(&alice)).expect("alice may read her upload");
    let stored_bytes = &blobs.iter().find(|(fid, _)| fid == read_handle.get_uid()).unwrap().1;
    assert_eq!(stored_bytes, &payload);
}

#[test]
fn use_type_labels() {
    assert_eq!(UseType::Reading.label(), "Reading");
    assert_eq!(UseType::Writing.label(), "Writing");
}

#[test]
fn dimension_extraction_is_stubbed() {
    let d = get_size(42);
    assert_eq!(d.get_width(), 0);
    assert_eq!(d.get_height(), 0);
}

#[test]
fn doc_ids_compare_by_value() {
    assert_eq!(DocId { raw: 7 }, DocId { raw: 7 });
    assert_ne!(DocId { raw: 7 }, DocId { raw: 8 });
}
