//! The central entity of the store: a permission-gated resource backed by a
//! storage handle in the blob backend.
//!
//! A resource owns an optional storage handle (absent until allocation), a
//! content type, an owner, an access list, and two public flags. Every read
//! and write is gated by the policy: a public flag bypasses the list; the
//! owner is always authorized; a listed user may always read and may write
//! only when their own entry grants write.

use crate::error::ResourceIOError;
use crate::user::User;
use vstd::prelude::*;
use vstd::string::StringExecFns;

verus! {

/// Identifier assigned by the metadata store to a persisted document
/// (a resource record or a user record).
#[derive(Clone, Copy, PartialEq, Eq, Structural, Debug)]
pub struct DocId {
    pub raw: u64,
}

/// One entry of a resource's access list: the named user may always read;
/// they may write only when `write` is set.
#[derive(Clone, Copy, PartialEq, Eq, Structural, Debug)]
pub struct AccessRight {
    pub user: DocId,
    pub write: bool,
}

/// Pixel dimensions of a stored media object. Dimension extraction is a
/// stub; it is explicitly outside this layer's contract.
pub struct Dimension {
    width: i32,
    height: i32,
}

impl Dimension {
    /// The width in pixels.
    pub closed spec fn spec_width(&self) -> i32 {
        self.width
    }

    /// The height in pixels.
    pub closed spec fn spec_height(&self) -> i32 {
        self.height
    }

    /// The width in pixels.
    pub fn get_width(&self) -> (r: i32)
        ensures
            r == self.spec_width(),
    {
        self.width
    }

    /// The height in pixels.
    pub fn get_height(&self) -> (r: i32)
        ensures
            r == self.spec_height(),
    {
        self.height
    }
}

/// Dimension extraction stub: always reports an empty dimension, whatever
/// the stored object is.
pub fn get_size(fid: i32) -> (d: Dimension)
    ensures
        d.spec_width() == 0,
        d.spec_height() == 0,
{
    let _ = fid;
    Dimension { width: 0, height: 0 }
}

/// The operation a permission check gates.
pub enum UseType {
    Reading,
    Writing,
}

impl UseType {
    /// Renders the operation for the caller.
    pub fn label(&self) -> (r: String)
        ensures
            self is Reading ==> r@ == "Reading"@,
            self is Writing ==> r@ == "Writing"@,
    {
        match self {
            UseType::Reading => String::from_str("Reading"),
            UseType::Writing => String::from_str("Writing"),
        }
    }
}

/// Whether the access list holds any entry for `user`; presence grants read.
pub open spec fn has_access_entry(access: Seq<AccessRight>, user: DocId) -> bool {
    exists|i: int| 0 <= i < access.len() && access[i].user == user
}

/// Whether the access list holds an entry for `user` that grants write. The
/// check is scoped to the requester's own entry: an entry granting write to
/// somebody else authorizes nobody but them.
pub open spec fn has_write_entry(access: Seq<AccessRight>, user: DocId) -> bool {
    exists|i: int| 0 <= i < access.len() && access[i].user == user && access[i].write
}

/// The identity a request carries: the persisted identifier of the
/// requesting user, if any.
pub open spec fn requester_id(request_user: Option<&User>) -> Option<DocId> {
    match request_user {
        Some(u) => u@.id,
        None => None,
    }
}

/// Mathematical model of a [`Resource`].
#[verifier::ext_equal]
pub struct ResourceView<S> {
    pub id: Option<DocId>,
    pub storage: Option<S>,
    pub extension: Seq<char>,
    pub owner: DocId,
    pub access: Seq<AccessRight>,
    pub r_public: bool,
    pub w_public: bool,
}

/// The read policy: a public-readable resource admits anybody; otherwise the
/// requester must be identified and be the owner or hold any access entry.
pub open spec fn read_allowed<S>(r: ResourceView<S>, requester: Option<DocId>) -> bool {
    r.r_public || match requester {
        Some(uid) => uid == r.owner || has_access_entry(r.access, uid),
        None => false,
    }
}

/// The write policy: a public-writable resource admits anybody; otherwise
/// the requester must be identified and be the owner or hold an access entry
/// that grants write.
pub open spec fn write_allowed<S>(r: ResourceView<S>, requester: Option<DocId>) -> bool {
    r.w_public || match requester {
        Some(uid) => uid == r.owner || has_write_entry(r.access, uid),
        None => false,
    }
}

/// The resource after an allocation that produced the handle `fresh`:
/// installed only when no handle was present; allocation never replaces an
/// existing handle.
pub open spec fn spec_alloc<S>(r: ResourceView<S>, fresh: S) -> ResourceView<S> {
    if r.storage is Some {
        r
    } else {
        ResourceView { storage: Some(fresh), ..r }
    }
}

/// A stored object with its metadata: content type, owner, access list and
/// public flags, plus the handle of its location in the blob backend.
pub struct Resource<S> {
    id: Option<DocId>,
    storage: Option<S>,
    extension: String,
    owner: DocId,
    access: Vec<AccessRight>,
    r_public: bool,
    w_public: bool,
}

impl<S> View for Resource<S> {
    type V = ResourceView<S>;

    closed spec fn view(&self) -> ResourceView<S> {
        ResourceView {
            id: self.id,
            storage: self.storage,
            extension: self.extension@,
            owner: self.owner,
            access: self.access@,
            r_public: self.r_public,
            w_public: self.w_public,
        }
    }
}

/// Whether the access list vector holds any entry for `uid`.
fn access_contains(access: &Vec<AccessRight>, uid: DocId) -> (b: bool)
    ensures
        b == has_access_entry(access@, uid),
{
    let mut i: usize = 0;
    while i < access.len()
        invariant
            0 <= i <= access@.len(),
            forall|j: int| 0 <= j < i ==> access@[j].user != uid,
        decreases access@.len() - i,
    {
        if access[i].user == uid {
            return true;
        }
        i = i + 1;
    }
    false
}

/// Whether the access list vector holds an entry for `uid` that grants
/// write.
fn access_grants_write(access: &Vec<AccessRight>, uid: DocId) -> (b: bool)
    ensures
        b == has_write_entry(access@, uid),
{
    let mut i: usize = 0;
    while i < access.len()
        invariant
            0 <= i <= access@.len(),
            forall|j: int| 0 <= j < i ==> !(access@[j].user == uid && access@[j].write),
        decreases access@.len() - i,
    {
        if access[i].user == uid && access[i].write {
            return true;
        }
        i = i + 1;
    }
    false
}

impl<S> Resource<S> {
    /// Builds a resource from an inbound content submission: the submitting
    /// user owns it, holds the one access entry (with write), both public
    /// flags are off, and neither an identifier nor a handle exists yet.
    /// The submitting user must have been persisted (they carry an id).
    pub fn from_field(content_type: &str, user: &User) -> (r: Resource<S>)
        requires
            user@.id is Some,
        ensures
            r@.id is None,
            r@.storage is None,
            r@.extension == content_type@,
            r@.owner == user@.id->0,
            r@.access == seq![AccessRight { user: user@.id->0, write: true }],
            r@.r_public == false,
            r@.w_public == false,
    {
        let uid = match user.get_id() {
            Some(u) => u,
            None => {
                proof {
                    assert(false);
                }
                DocId { raw: 0 }
            },
        };
        let mut access: Vec<AccessRight> = Vec::new();
        access.push(AccessRight { user: uid, write: true });
        proof {
            assert(access@ =~= seq![AccessRight { user: uid, write: true }]);
        }
        Resource {
            id: None,
            storage: None,
            extension: content_type.to_owned(),
            owner: uid,
            access,
            r_public: false,
            w_public: false,
        }
    }

    /// Rebuilds a resource from its parts, as the metadata store hands them
    /// back.
    pub fn from_parts(
        id: Option<DocId>,
        storage: Option<S>,
        extension: String,
        owner: DocId,
        access: Vec<AccessRight>,
        r_public: bool,
        w_public: bool,
    ) -> (r: Resource<S>)
        ensures
            r@ == (ResourceView {
                id,
                storage,
                extension: extension@,
                owner,
                access: access@,
                r_public,
                w_public,
            }),
    {
        Resource { id, storage, extension, owner, access, r_public, w_public }
    }

    /// The identifier produced by the metadata store, if the resource has
    /// been persisted.
    pub fn get_id(&self) -> (r: Option<DocId>)
        ensures
            r == self@.id,
    {
        self.id
    }

    /// The same resource under the identifier the store assigned.
    pub fn with_id(self, id: DocId) -> (r: Resource<S>)
        ensures
            r@ == (ResourceView { id: Some(id), ..self@ }),
    {
        Resource { id: Some(id), ..self }
    }

    /// Authorizes a read and yields the handle to stream from. Fails with
    /// `InsufficientPermissions` when the policy denies the requester, and
    /// with `NotAllocated` when an authorized read arrives before a handle
    /// exists.
    pub fn read(&self, request_user: Option<&User>) -> (r: Result<&S, ResourceIOError>)
        ensures
            r is Ok <==> read_allowed(self@, requester_id(request_user)) && self@.storage is Some,
            r matches Ok(h) ==> self@.storage matches Some(s) && *h == s,
            !read_allowed(self@, requester_id(request_user)) ==> (r matches Err(e)
                && e matches ResourceIOError::InsufficientPermissions(op) && op@ == "reading"@),
            read_allowed(self@, requester_id(request_user)) && self@.storage is None ==> r
                == Err::<&S, ResourceIOError>(ResourceIOError::NotAllocated),
    {
        let allowed = self.r_public || match request_user {
            Some(u) => match u.get_id() {
                Some(uid) => uid == self.owner || access_contains(&self.access, uid),
                None => false,
            },
            None => false,
        };
        if !allowed {
            return Err(ResourceIOError::InsufficientPermissions(String::from_str("reading")));
        }
        match &self.storage {
            Some(h) => Ok(h),
            None => Err(ResourceIOError::NotAllocated),
        }
    }

    /// Authorizes a write and yields the handle to write through. Fails with
    /// `InsufficientPermissions` when the policy denies the requester — the
    /// check is scoped to the requester's own access entry — and with
    /// `NotAllocated` when an authorized write arrives before a handle
    /// exists; never a silent no-op.
    pub fn save(&self, request_user: Option<&User>) -> (r: Result<&S, ResourceIOError>)
        ensures
            r is Ok <==> write_allowed(self@, requester_id(request_user)) && self@.storage is Some,
            r matches Ok(h) ==> self@.storage matches Some(s) && *h == s,
            !write_allowed(self@, requester_id(request_user)) ==> (r matches Err(e)
                && e matches ResourceIOError::InsufficientPermissions(op) && op@ == "writing"@),
            write_allowed(self@, requester_id(request_user)) && self@.storage is None ==> r
                == Err::<&S, ResourceIOError>(ResourceIOError::NotAllocated),
    {
        let allowed = self.w_public || match request_user {
            Some(u) => match u.get_id() {
                Some(uid) => uid == self.owner || access_grants_write(&self.access, uid),
                None => false,
            },
            None => false,
        };
        if !allowed {
            return Err(ResourceIOError::InsufficientPermissions(String::from_str("writing")));
        }
        match &self.storage {
            Some(h) => Ok(h),
            None => Err(ResourceIOError::NotAllocated),
        }
    }

    /// Installs a freshly allocated handle, unless one is already present:
    /// allocation is idempotent and the handle is set at most once. The
    /// metadata store is not touched; the caller persists separately.
    pub fn allocate(&mut self, fresh: S)
        ensures
            final(self)@ == spec_alloc(old(self)@, fresh),
    {
        if self.storage.is_none() {
            self.storage = Some(fresh);
        }
    }

    /// The underlying storage handle.
    pub fn get_storage(&self) -> (r: &Option<S>)
        ensures
            *r == self@.storage,
    {
        &self.storage
    }

    /// Partial update of the public flags: `None` leaves the current value
    /// unchanged.
    pub fn update_public_access(&mut self, r_public: Option<bool>, w_public: Option<bool>)
        ensures
            final(self)@ == (ResourceView {
                r_public: match r_public {
                    Some(b) => b,
                    None => old(self)@.r_public,
                },
                w_public: match w_public {
                    Some(b) => b,
                    None => old(self)@.w_public,
                },
                ..old(self)@
            }),
    {
        self.r_public = match r_public {
            None => self.r_public,
            Some(e) => e,
        };
        self.w_public = match w_public {
            None => self.w_public,
            Some(e) => e,
        };
    }

    /// The owner's identifier.
    pub fn get_owner(&self) -> (r: DocId)
        ensures
            r == self@.owner,
    {
        self.owner
    }

    /// The content type fixed at creation.
    pub fn get_extension(&self) -> (r: &String)
        ensures
            r@ == self@.extension,
    {
        &self.extension
    }

    /// The access list.
    pub fn get_access(&self) -> (r: &Vec<AccessRight>)
        ensures
            r@ == self@.access,
    {
        &self.access
    }

    /// The read-public flag.
    pub fn is_read_public(&self) -> (r: bool)
        ensures
            r == self@.r_public,
    {
        self.r_public
    }

    /// The write-public flag.
    pub fn is_write_public(&self) -> (r: bool)
        ensures
            r == self@.w_public,
    {
        self.w_public
    }
}

/// A resource whose read-public flag is set admits an anonymous read: the
/// policy never denies `read(None)` on it.
pub proof fn lemma_read_public_always_allowed<S>(r: ResourceView<S>)
    requires
        r.r_public,
    ensures
        read_allowed(r, None),
{
}

/// A private resource denies a read to any requester who is neither the
/// owner nor present in the access list — identified or not.
pub proof fn lemma_read_denied_for_strangers<S>(r: ResourceView<S>, requester: Option<DocId>)
    requires
        !r.r_public,
        requester matches Some(uid) ==> uid != r.owner && !has_access_entry(r.access, uid),
    ensures
        !read_allowed(r, requester),
{
}

/// The owner is always implicitly authorized, for reading and for writing,
/// whatever the public flags and the access list say.
pub proof fn lemma_owner_always_authorized<S>(r: ResourceView<S>)
    ensures
        read_allowed(r, Some(r.owner)),
        write_allowed(r, Some(r.owner)),
{
}

/// Allocation is idempotent: allocating on an already-allocated resource
/// changes nothing, so two allocations in a row leave the handle the first
/// one installed.
pub proof fn lemma_alloc_idempotent<S>(r: ResourceView<S>, h1: S, h2: S)
    ensures
        spec_alloc(spec_alloc(r, h1), h2) == spec_alloc(r, h1),
        spec_alloc(spec_alloc(r, h1), h2).storage == Some(
            if r.storage is Some {
                r.storage->0
            } else {
                h1
            },
        ),
{
}

} // verus!
