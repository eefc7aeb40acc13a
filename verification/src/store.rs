//! The metadata store: persistence of resource records and user records,
//! modeled as a document store that assigns identifiers on insertion and
//! serves lookups by identifier, paginated ownership queries, full-document
//! replacement, and username-keyed user lookups.

use crate::error::ResourceIOError;
use crate::resource::{DocId, Resource, ResourceView};
use crate::user::{User, UserReq, UserView, CREDENTIAL_LEN};
use vstd::prelude::*;

verus! {

/// Lower bound on the fetch batch of an ownership query, to avoid
/// pathological single-row fetches.
pub const MIN_BATCH_SIZE: u32 = 50;

/// A page request of an ownership query: which page, and how many records a
/// page holds.
#[derive(Clone, Copy, PartialEq, Eq, Structural, Debug)]
pub struct PaginationOptions {
    pub page: usize,
    pub max_results: u32,
}

impl PaginationOptions {
    /// Builds a page request.
    pub fn new(page: usize, max_results: u32) -> (r: PaginationOptions)
        ensures
            r.page == page,
            r.max_results == max_results,
    {
        PaginationOptions { page, max_results }
    }

    /// The fetch batch to use: the requested page size, but never below the
    /// minimum batch size.
    pub fn batch_size(&self) -> (r: u32)
        ensures
            r == if self.max_results >= MIN_BATCH_SIZE {
                self.max_results
            } else {
                MIN_BATCH_SIZE
            },
    {
        if self.max_results >= MIN_BATCH_SIZE {
            self.max_results
        } else {
            MIN_BATCH_SIZE
        }
    }
}

/// The records owned by `owner`, in store order.
pub open spec fn owned_resources<S>(resources: Seq<ResourceView<S>>, owner: DocId) -> Seq<
    ResourceView<S>,
> {
    resources.filter(|r: ResourceView<S>| r.owner == owner)
}

/// `x`, clipped from above to `len`.
pub open spec fn clip(x: int, len: int) -> int {
    if x < len {
        x
    } else {
        len
    }
}

/// The page of `owned` selected by a skip of `page * size` records and a
/// limit of `size` records.
pub open spec fn page_slice<S>(owned: Seq<ResourceView<S>>, page: int, size: int) -> Seq<
    ResourceView<S>,
>
    recommends
        page >= 0,
        size >= 0,
{
    owned.subrange(
        clip(page * size, owned.len() as int),
        clip(page * size + size, owned.len() as int),
    )
}

/// Whether some user record carries this username.
pub open spec fn contains_username(users: Seq<UserView>, name: Seq<char>) -> bool {
    exists|i: int| 0 <= i < users.len() && users[i].username == name
}

/// The views of a sequence of borrowed resources.
pub open spec fn views_of<S>(ds: Seq<&Resource<S>>) -> Seq<ResourceView<S>> {
    ds.map_values(|d: &Resource<S>| d@)
}

/// Mathematical model of a [`MetadataStore`].
#[verifier::ext_equal]
pub struct MetadataStoreView<S> {
    pub resources: Seq<ResourceView<S>>,
    pub users: Seq<UserView>,
    pub next_id: u64,
}

/// The document store holding resource records and user records. Identifiers
/// are assigned by the store on first persistence and never reused.
pub struct MetadataStore<S> {
    resources: Vec<Resource<S>>,
    users: Vec<User>,
    next_id: u64,
}

impl<S> View for MetadataStore<S> {
    type V = MetadataStoreView<S>;

    closed spec fn view(&self) -> MetadataStoreView<S> {
        MetadataStoreView {
            resources: self.resources@.map_values(|r: Resource<S>| r@),
            users: self.users@.map_values(|u: User| u@),
            next_id: self.next_id,
        }
    }
}

/// The index of the record carrying `id`, if one exists.
fn find_doc_index<S>(resources: &Vec<Resource<S>>, id: DocId) -> (r: Option<usize>)
    ensures
        r matches Some(i) ==> i < resources@.len() && resources@[i as int]@.id == Some(id),
        r is None ==> forall|j: int| 0 <= j < resources@.len() ==> resources@[j]@.id != Some(id),
{
    let mut i: usize = 0;
    while i < resources.len()
        invariant
            0 <= i <= resources@.len(),
            forall|j: int| 0 <= j < i ==> resources@[j]@.id != Some(id),
        decreases resources@.len() - i,
    {
        match resources[i].get_id() {
            Some(d) => {
                if d == id {
                    return Some(i);
                }
            },
            None => {},
        }
        i = i + 1;
    }
    None
}

impl<S> MetadataStore<S> {
    /// A well-formed store: every record carries an identifier below the
    /// next free one, identifiers are unique, usernames are unique, and
    /// every user record is well formed.
    pub open spec fn wf(&self) -> bool {
        let v = self@;
        &&& forall|i: int|
            0 <= i < v.resources.len() ==> (#[trigger] v.resources[i]).id is Some
                && v.resources[i].id->0.raw < v.next_id
        &&& forall|i: int, j: int|
            0 <= i < j < v.resources.len() ==> v.resources[i].id != v.resources[j].id
        &&& forall|i: int|
            0 <= i < v.users.len() ==> (#[trigger] v.users[i]).id is Some && v.users[i].id->0.raw
                < v.next_id && v.users[i].credential.len() == CREDENTIAL_LEN
        &&& forall|i: int, j: int|
            0 <= i < j < v.users.len() ==> v.users[i].username != v.users[j].username
    }

    /// An empty store.
    pub fn new() -> (r: MetadataStore<S>)
        ensures
            r.wf(),
            r@.resources.len() == 0,
            r@.users.len() == 0,
            r@.next_id == 0,
    {
        MetadataStore { resources: Vec::new(), users: Vec::new(), next_id: 0 }
    }

    /// Inserts a resource record and assigns it the generated identifier,
    /// which is returned. To never leave a persisted record pointing at no
    /// storage, the resource must have been allocated first.
    pub fn save_resource(&mut self, doc: Resource<S>) -> (id: DocId)
        requires
            old(self).wf(),
            doc@.storage is Some,
            old(self)@.next_id < u64::MAX,
        ensures
            final(self).wf(),
            id.raw == old(self)@.next_id,
            final(self)@.next_id == old(self)@.next_id + 1,
            final(self)@.users == old(self)@.users,
            final(self)@.resources == old(self)@.resources.push(
                (ResourceView { id: Some(id), ..doc@ }),
            ),
    {
        let id = DocId { raw: self.next_id };
        self.next_id = self.next_id + 1;
        let doc2 = doc.with_id(id);
        self.resources.push(doc2);
        proof {
            assert(self.resources@.map_values(|r: Resource<S>| r@) =~= old(
                self,
            ).resources@.map_values(|r: Resource<S>| r@).push(doc2@));
            assert(self.users@ == old(self).users@);
        }
        id
    }

    /// Looks a resource up by identifier: `Some` exactly when a record
    /// carries the identifier, and then that record.
    pub fn find_resource(&self, id: DocId) -> (r: Option<&Resource<S>>)
        ensures
            r matches Some(d) ==> d@.id == Some(id) && exists|i: int|
                0 <= i < self@.resources.len() && self@.resources[i] == d@,
            r is None ==> forall|i: int|
                0 <= i < self@.resources.len() ==> self@.resources[i].id != Some(id),
    {
        match find_doc_index(&self.resources, id) {
            Some(i) => {
                proof {
                    assert(self@.resources[i as int] == self.resources@[i as int]@);
                }
                Some(&self.resources[i])
            },
            None => None,
        }
    }

    /// The requested page of the records owned by `user_id`, in store order:
    /// the query skips `page * max_results` owned records and returns at
    /// most `max_results` of them.
    pub fn find_owned_resources(&self, user_id: DocId, pagination: &PaginationOptions) -> (r: Vec<
        &Resource<S>,
    >)
        ensures
            views_of(r@) == page_slice(
                owned_resources(self@.resources, user_id),
                pagination.page as int,
                pagination.max_results as int,
            ),
    {
        let ghost all = self@.resources;
        let mut owned: Vec<&Resource<S>> = Vec::new();
        let mut i: usize = 0;
        proof {
            assert(views_of(owned@) =~= owned_resources(all.subrange(0, 0), user_id)) by {
                reveal(Seq::filter);
                assert(all.subrange(0, 0) =~= Seq::<ResourceView<S>>::empty());
            }
        }
        while i < self.resources.len()
            invariant
                0 <= i <= self.resources@.len(),
                all == self@.resources,
                all.len() == self.resources@.len(),
                forall|j: int| 0 <= j < all.len() ==> all[j] == self.resources@[j]@,
                views_of(owned@) == owned_resources(all.subrange(0, i as int), user_id),
            decreases self.resources@.len() - i,
        {
            let ghost owned_pre = owned@;
            let rsc = &self.resources[i];
            if rsc.get_owner() == user_id {
                owned.push(rsc);
            }
            proof {
                reveal(Seq::filter);
                let prefix1 = all.subrange(0, i + 1);
                assert(prefix1.drop_last() =~= all.subrange(0, i as int));
                assert(prefix1.last() == all[i as int]);
                if all[i as int].owner == user_id {
                    assert(views_of(owned@) =~= views_of(owned_pre).push(rsc@));
                } else {
                    assert(owned@ == owned_pre);
                }
            }
            i = i + 1;
        }
        proof {
            assert(all.subrange(0, all.len() as int) =~= all);
        }
        let ghost owned_all = owned_resources(all, user_id);
        assert(views_of(owned@) == owned_all);
        assert(owned@.len() == owned_all.len()) by {
            assert(views_of(owned@).len() == owned@.len());
        }
        let total: usize = owned.len();
        let size: usize = pagination.max_results as usize;
        let start: usize = match pagination.page.checked_mul(size) {
            Some(p) => {
                if p > total {
                    total
                } else {
                    p
                }
            },
            None => total,
        };
        let end: usize = match start.checked_add(size) {
            Some(e) => {
                if e > total {
                    total
                } else {
                    e
                }
            },
            None => total,
        };
        proof {
            assert(start as int == clip(
                pagination.page as int * pagination.max_results as int,
                owned_all.len() as int,
            ));
            assert(end as int == clip(
                pagination.page as int * pagination.max_results as int
                    + pagination.max_results as int,
                owned_all.len() as int,
            ));
        }
        let mut out: Vec<&Resource<S>> = Vec::new();
        let mut k: usize = start;
        proof {
            assert(out@ =~= owned@.subrange(start as int, start as int));
        }
        while k < end
            invariant
                start <= k <= end,
                end <= owned@.len(),
                out@ == owned@.subrange(start as int, k as int),
            decreases end - k,
        {
            out.push(owned[k]);
            proof {
                assert(out@ =~= owned@.subrange(start as int, k + 1));
            }
            k = k + 1;
        }
        proof {
            assert(views_of(out@) =~= views_of(owned@).subrange(start as int, end as int));
        }
        out
    }

    /// Replaces the stored record carrying the resource's identifier with
    /// the resource, as a full document. Fails with `MissingIdentifier` — and
    /// changes nothing — when the resource has no identifier yet; replacing
    /// an identifier nobody carries changes nothing.
    pub fn update_resource(&mut self, res: Resource<S>) -> (r: Result<(), ResourceIOError>)
        requires
            old(self).wf(),
        ensures
            final(self).wf(),
            final(self)@.users == old(self)@.users,
            final(self)@.next_id == old(self)@.next_id,
            res@.id is None ==> (r matches Err(e) && e is MissingIdentifier && final(self)@ == old(
                self,
            )@),
            res@.id matches Some(id) ==> (r is Ok && final(self)@.resources.len() == old(
                self,
            )@.resources.len() && forall|i: int|
                0 <= i < old(self)@.resources.len() ==> final(self)@.resources[i] == (
                if old(self)@.resources[i].id == Some(id) {
                    res@
                } else {
                    old(self)@.resources[i]
                })),
    {
        let id = match res.get_id() {
            Some(id) => id,
            None => {
                return Err(ResourceIOError::MissingIdentifier);
            },
        };
        match find_doc_index(&self.resources, id) {
            Some(i) => {
                let ghost c0 = self.resources@;
                let _ = self.resources.remove(i);
                self.resources.insert(i, res);
                proof {
                    assert(self.resources@ =~= c0.update(i as int, res));
                    assert forall|j: int|
                        0 <= j < old(self)@.resources.len() implies self@.resources[j] == (
                    if old(self)@.resources[j].id == Some(id) {
                        res@
                    } else {
                        old(self)@.resources[j]
                    }) by {
                        assert(old(self)@.resources[j] == c0[j]@);
                        if j != i {
                            assert(old(self)@.resources[i as int].id == Some(id));
                            assert(old(self)@.resources[j].id != Some(id));
                        }
                    }
                }
            },
            None => {},
        }
        Ok(())
    }

    /// Looks a user up by the requested username: `Some` exactly when a user
    /// record carries it, and then that record.
    pub fn get_user(&self, user: &UserReq) -> (r: Option<&User>)
        requires
            self.wf(),
        ensures
            r matches Some(u) ==> u@.username == user@.username && u.wf() && exists|i: int|
                0 <= i < self@.users.len() && self@.users[i] == u@,
            r is None ==> forall|i: int|
                0 <= i < self@.users.len() ==> self@.users[i].username != user@.username,
    {
        let name = user.get_username();
        let mut i: usize = 0;
        while i < self.users.len()
            invariant
                self.wf(),
                0 <= i <= self.users@.len(),
                name@ == user@.username,
                forall|j: int| 0 <= j < i ==> self@.users[j].username != user@.username,
                self@.users.len() == self.users@.len(),
                forall|j: int| 0 <= j < self.users@.len() ==> self@.users[j] == self.users@[j]@,
            decreases self.users@.len() - i,
        {
            if self.users[i].get_username() == name {
                proof {
                    assert(self@.users[i as int] == self.users@[i as int]@);
                    assert(self@.users[i as int].username == user@.username);
                    assert(self@.users[i as int].credential.len() == CREDENTIAL_LEN);
                    assert(exists|j: int|
                        0 <= j < self@.users.len() && self@.users[j] == self.users@[i as int]@);
                }
                return Some(&self.users[i]);
            }
            i = i + 1;
        }
        None
    }

    /// Inserts a user record and assigns it the generated identifier, which
    /// is returned. Usernames are unique keys: the caller checks existence
    /// first.
    pub fn save_user(&mut self, user: User) -> (id: DocId)
        requires
            old(self).wf(),
            user.wf(),
            !contains_username(old(self)@.users, user@.username),
            old(self)@.next_id < u64::MAX,
        ensures
            final(self).wf(),
            id.raw == old(self)@.next_id,
            final(self)@.next_id == old(self)@.next_id + 1,
            final(self)@.resources == old(self)@.resources,
            final(self)@.users == old(self)@.users.push((UserView { id: Some(id), ..user@ })),
    {
        let id = DocId { raw: self.next_id };
        self.next_id = self.next_id + 1;
        let ghost u2 = UserView { id: Some(id), ..user@ };
        self.users.push(user.with_id(id));
        proof {
            assert(self.users@.map_values(|u: User| u@) =~= old(self).users@.map_values(
                |u: User| u@,
            ).push(u2));
            assert(self.resources@ == old(self).resources@);
        }
        id
    }

    /// Whether a user record carries this user's username; the race-tolerant
    /// existence check run before registration.
    pub fn has_user_by_name(&self, user: &User) -> (r: bool)
        ensures
            r == contains_username(self@.users, user@.username),
    {
        let name = user.get_username();
        let mut i: usize = 0;
        while i < self.users.len()
            invariant
                0 <= i <= self.users@.len(),
                name@ == user@.username,
                forall|j: int| 0 <= j < i ==> self@.users[j].username != user@.username,
                self@.users.len() == self.users@.len(),
                forall|j: int| 0 <= j < self.users@.len() ==> self@.users[j] == self.users@[j]@,
            decreases self.users@.len() - i,
        {
            if self.users[i].get_username() == name {
                proof {
                    assert(self@.users[i as int].username == user@.username);
                }
                return true;
            }
            i = i + 1;
        }
        false
    }
}

/// Round trip of persistence: in a store extended by a resource under a
/// fresh identifier, a record carries that identifier, and every record that
/// carries it — which is what a lookup by that identifier returns — has
/// owner, content type, access rights, public flags and storage handle
/// identical to the persisted resource.
pub proof fn lemma_persist_find_round_trip<S>(
    resources: Seq<ResourceView<S>>,
    doc: ResourceView<S>,
    id: DocId,
)
    requires
        forall|i: int| 0 <= i < resources.len() ==> resources[i].id != Some(id),
    ensures
        ({
            let stored = resources.push((ResourceView { id: Some(id), ..doc }));
            &&& exists|i: int| 0 <= i < stored.len() && stored[i].id == Some(id)
            &&& forall|i: int|
                0 <= i < stored.len() && stored[i].id == Some(id) ==> stored[i].owner == doc.owner
                    && stored[i].extension == doc.extension && stored[i].access == doc.access
                    && stored[i].r_public == doc.r_public && stored[i].w_public == doc.w_public
                    && stored[i].storage == doc.storage
        }),
{
    let stored = resources.push((ResourceView { id: Some(id), ..doc }));
    assert(stored[resources.len() as int].id == Some(id));
}

/// Consecutive pages are contiguous and disjoint: the records of page `p`
/// and page `p + 1` concatenate to one contiguous run of the owned records,
/// so no record occurs on both pages.
pub proof fn lemma_pages_contiguous<S>(owned: Seq<ResourceView<S>>, page: int, size: int)
    requires
        page >= 0,
        size >= 0,
    ensures
        page_slice(owned, page, size) + page_slice(owned, page + 1, size) == owned.subrange(
            clip(page * size, owned.len() as int),
            clip(page * size + 2 * size, owned.len() as int),
        ),
{
    assert((page + 1) * size == page * size + size) by (nonlinear_arith);
    assert(page_slice(owned, page, size) + page_slice(owned, page + 1, size) =~= owned.subrange(
        clip(page * size, owned.len() as int),
        clip(page * size + 2 * size, owned.len() as int),
    ));
}

/// The first two pages cover all owned records whenever at most two pages'
/// worth exist.
pub proof fn lemma_two_pages_cover<S>(owned: Seq<ResourceView<S>>, size: int)
    requires
        size >= 0,
        owned.len() <= 2 * size,
    ensures
        page_slice(owned, 0, size) + page_slice(owned, 1, size) == owned,
{
    assert(0 * size == 0) by (nonlinear_arith);
    assert(1 * size == size) by (nonlinear_arith);
    assert(page_slice(owned, 0, size) + page_slice(owned, 1, size) =~= owned);
}

} // verus!
