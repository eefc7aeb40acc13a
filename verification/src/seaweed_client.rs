//! Client-side logic of the blob backend: the bounded volume-address cache
//! and the request targets of the directory service and the volume nodes.
//!
//! Resolving a volume to a physical address goes through the cache first; a
//! hit is answered from the cache alone and queries nothing. Entries are not
//! invalidated proactively: a stale mapping surfaces as a failure of the
//! subsequent transfer, not at lookup time. The transfers themselves are
//! performed by the surrounding plumbing against the URLs built here.

use vstd::prelude::*;
use vstd::string::StringExecFns;

verus! {

/// Bound of the volume-address cache: only this many volumes stay cached.
pub const CACHE_CAP: usize = 100;

/// The decimal digit character for a value below ten.
pub open spec fn digit_char(d: nat) -> char {
    if d == 0 {
        '0'
    } else if d == 1 {
        '1'
    } else if d == 2 {
        '2'
    } else if d == 3 {
        '3'
    } else if d == 4 {
        '4'
    } else if d == 5 {
        '5'
    } else if d == 6 {
        '6'
    } else if d == 7 {
        '7'
    } else if d == 8 {
        '8'
    } else {
        '9'
    }
}

/// The decimal rendering of `n`, most significant digit first, without
/// leading zeros (a single zero renders as "0").
pub open spec fn digits_of(n: nat) -> Seq<char>
    decreases n,
{
    if n < 10 {
        seq![digit_char(n)]
    } else {
        digits_of(n / 10).push(digit_char(n % 10))
    }
}

/// The directory-service URL that looks a volume up.
pub open spec fn spec_lookup_url(directory: Seq<char>, volume: nat) -> Seq<char> {
    "http://"@ + directory + "/dir/lookup?volumeId="@ + digits_of(volume)
}

/// The directory-service URL that assigns a fresh location.
pub open spec fn spec_assign_url(directory: Seq<char>) -> Seq<char> {
    "http://"@ + directory + "/dir/assign"@
}

/// The volume-node URL that addresses one blob.
pub open spec fn spec_file_url(addr: Seq<char>, fid: Seq<char>) -> Seq<char> {
    "http://"@ + addr + "/"@ + fid
}

/// Appends one decimal digit to `s`.
fn append_digit(s: &mut String, d: u16)
    requires
        d < 10,
    ensures
        final(s)@ == old(s)@ + seq![digit_char(d as nat)],
{
    match d {
        0 => {
            proof {
                reveal_strlit("0");
            }
            s.append("0");
        },
        1 => {
            proof {
                reveal_strlit("1");
            }
            s.append("1");
        },
        2 => {
            proof {
                reveal_strlit("2");
            }
            s.append("2");
        },
        3 => {
            proof {
                reveal_strlit("3");
            }
            s.append("3");
        },
        4 => {
            proof {
                reveal_strlit("4");
            }
            s.append("4");
        },
        5 => {
            proof {
                reveal_strlit("5");
            }
            s.append("5");
        },
        6 => {
            proof {
                reveal_strlit("6");
            }
            s.append("6");
        },
        7 => {
            proof {
                reveal_strlit("7");
            }
            s.append("7");
        },
        8 => {
            proof {
                reveal_strlit("8");
            }
            s.append("8");
        },
        _ => {
            proof {
                reveal_strlit("9");
            }
            s.append("9");
        },
    }
    proof {
        assert(final(s)@ =~= old(s)@ + seq![digit_char(d as nat)]);
    }
}

/// Appends the decimal rendering of `n` to `s`.
fn append_u16(s: &mut String, n: u16)
    ensures
        final(s)@ == old(s)@ + digits_of(n as nat),
    decreases n,
{
    if n < 10 {
        append_digit(s, n);
    } else {
        append_u16(s, n / 10);
        append_digit(s, n % 10);
        proof {
            assert(final(s)@ =~= old(s)@ + digits_of(n as nat));
        }
    }
}

/// The address cached for `volume`, searching the entries front to back.
pub open spec fn cache_lookup(entries: Seq<(i16, String)>, volume: i16) -> Option<String>
    decreases entries.len(),
{
    if entries.len() == 0 {
        None
    } else if entries[0].0 == volume {
        Some(entries[0].1)
    } else {
        cache_lookup(entries.drop_first(), volume)
    }
}

/// Whether no two cache entries name the same volume.
pub open spec fn unique_volumes(entries: Seq<(i16, String)>) -> bool {
    forall|i: int, j: int| 0 <= i < j < entries.len() ==> entries[i].0 != entries[j].0
}

/// The lookup misses exactly when no entry names the volume.
proof fn lemma_lookup_none_iff(entries: Seq<(i16, String)>, volume: i16)
    ensures
        cache_lookup(entries, volume) is None <==> (forall|i: int|
            0 <= i < entries.len() ==> entries[i].0 != volume),
    decreases entries.len(),
{
    if entries.len() > 0 && entries[0].0 != volume {
        let t = entries.drop_first();
        lemma_lookup_none_iff(t, volume);
        assert(forall|i: int| 1 <= i < entries.len() ==> entries[i] == t[i - 1]);
    }
}

/// With unique volumes, the lookup returns the address of whichever entry
/// names the volume.
proof fn lemma_lookup_at(entries: Seq<(i16, String)>, volume: i16, i: int)
    requires
        unique_volumes(entries),
        0 <= i < entries.len(),
        entries[i].0 == volume,
    ensures
        cache_lookup(entries, volume) == Some(entries[i].1),
    decreases entries.len(),
{
    if i > 0 {
        let t = entries.drop_first();
        assert(unique_volumes(t)) by {
            assert(forall|a: int, b: int|
                0 <= a < b < t.len() ==> t[a] == entries[a + 1] && t[b] == entries[b + 1]);
        }
        assert(t[i - 1] == entries[i]);
        lemma_lookup_at(t, volume, i - 1);
    }
}

/// How removing one entry changes the lookup: the removed entry's volume is
/// no longer found; every other volume resolves as before. Uniqueness is
/// kept.
proof fn lemma_lookup_remove(entries: Seq<(i16, String)>, i: int, w: i16)
    requires
        unique_volumes(entries),
        0 <= i < entries.len(),
    ensures
        unique_volumes(entries.remove(i)),
        entries[i].0 == w ==> cache_lookup(entries.remove(i), w) is None,
        entries[i].0 != w ==> cache_lookup(entries.remove(i), w) == cache_lookup(entries, w),
    decreases entries.len(),
{
    let r = entries.remove(i);
    assert(unique_volumes(r)) by {
        assert(forall|a: int|
            0 <= a < r.len() ==> r[a] == (if a < i {
                entries[a]
            } else {
                entries[a + 1]
            }));
    }
    if i == 0 {
        assert(r =~= entries.drop_first());
        if entries[0].0 == w {
            lemma_lookup_none_iff(r, w);
            assert(forall|a: int| 0 <= a < r.len() ==> r[a] == entries[a + 1]);
        }
    } else {
        let t = entries.drop_first();
        assert(unique_volumes(t)) by {
            assert(forall|a: int, b: int|
                0 <= a < b < t.len() ==> t[a] == entries[a + 1] && t[b] == entries[b + 1]);
        }
        assert(t[i - 1] == entries[i]);
        lemma_lookup_remove(t, i - 1, w);
        assert(r.drop_first() =~= t.remove(i - 1));
        assert(r[0] == entries[0]);
    }
}

/// How appending one entry changes the lookup: a volume that was already
/// cached resolves as before; the appended entry answers only for its own
/// volume, and only when that volume was absent.
proof fn lemma_lookup_push(entries: Seq<(i16, String)>, pair: (i16, String), w: i16)
    ensures
        cache_lookup(entries, w) is Some ==> cache_lookup(entries.push(pair), w) == cache_lookup(
            entries,
            w,
        ),
        cache_lookup(entries, w) is None && pair.0 == w ==> cache_lookup(entries.push(pair), w)
            == Some(pair.1),
        cache_lookup(entries, w) is None && pair.0 != w ==> cache_lookup(entries.push(pair), w)
            is None,
    decreases entries.len(),
{
    let p = entries.push(pair);
    if entries.len() == 0 {
        assert(p[0] == pair);
        assert(p.drop_first() =~= Seq::<(i16, String)>::empty());
    } else {
        assert(p[0] == entries[0]);
        if entries[0].0 != w {
            assert(p.drop_first() =~= entries.drop_first().push(pair));
            lemma_lookup_push(entries.drop_first(), pair, w);
        }
    }
}

/// A physical location of a volume, as the directory service reports it.
pub struct VolumeLocation {
    url: String,
}

impl View for VolumeLocation {
    type V = Seq<char>;

    closed spec fn view(&self) -> Seq<char> {
        self.url@
    }
}

impl VolumeLocation {
    /// Wraps a reported node address.
    pub fn new(url: String) -> (r: Self)
        ensures
            r@ == url@,
    {
        VolumeLocation { url }
    }

    /// The node address.
    pub fn get_url(&self) -> (r: &String)
        ensures
            r@ == self@,
    {
        &self.url
    }
}

/// A volume-lookup answer of the directory service: the locations that serve
/// the volume.
pub struct VolumeLookup {
    locations: Vec<VolumeLocation>,
}

impl View for VolumeLookup {
    type V = Seq<Seq<char>>;

    closed spec fn view(&self) -> Seq<Seq<char>> {
        self.locations@.map_values(|l: VolumeLocation| l@)
    }
}

impl VolumeLookup {
    /// Wraps a list of reported locations.
    pub fn new(locations: Vec<VolumeLocation>) -> (r: Self)
        ensures
            r@.len() == locations@.len(),
            forall|i: int| 0 <= i < locations@.len() ==> r@[i] == locations@[i]@,
    {
        VolumeLookup { locations }
    }

    /// The first reported location, which the client addresses.
    pub fn first_location(&self) -> (r: Option<&VolumeLocation>)
        ensures
            self@.len() > 0 ==> (r matches Some(l) && l@ == self@[0]),
            self@.len() == 0 ==> r is None,
    {
        if self.locations.len() > 0 {
            Some(&self.locations[0])
        } else {
            None
        }
    }
}

/// A location-assignment answer of the directory service: the fresh backend
/// identifier.
pub struct AssignId {
    fid: String,
}

impl View for AssignId {
    type V = Seq<char>;

    closed spec fn view(&self) -> Seq<char> {
        self.fid@
    }
}

impl AssignId {
    /// Wraps an assigned identifier.
    pub fn new(fid: String) -> (r: Self)
        ensures
            r@ == fid@,
    {
        AssignId { fid }
    }

    /// The assigned identifier.
    pub fn get_fid(&self) -> (r: &String)
        ensures
            r@ == self@,
    {
        &self.fid
    }
}

/// How a volume address is to be obtained: answered from the cache, or by
/// querying the directory service at the given URL.
pub enum AddrResolution {
    /// The cache held the address; nothing is queried.
    Cached(String),
    /// The cache missed; the directory service must be queried at this URL.
    Query(String),
}

/// Mathematical model of a [`SeaweedFsClient`].
#[verifier::ext_equal]
pub struct SeaweedFsClientView {
    pub directory: Seq<char>,
    pub cache: Seq<(i16, String)>,
}

/// The blob backend client: the directory-service address and the bounded
/// volume-address cache, the only shared mutable state of the client.
pub struct SeaweedFsClient {
    directory: String,
    cache: Vec<(i16, String)>,
}

impl View for SeaweedFsClient {
    type V = SeaweedFsClientView;

    closed spec fn view(&self) -> SeaweedFsClientView {
        SeaweedFsClientView { directory: self.directory@, cache: self.cache@ }
    }
}

/// The index of the entry naming `volume`, if one exists.
fn find_volume_index(cache: &Vec<(i16, String)>, volume: i16) -> (r: Option<usize>)
    ensures
        r matches Some(i) ==> i < cache@.len() && cache@[i as int].0 == volume,
        r is None ==> forall|j: int| 0 <= j < cache@.len() ==> cache@[j].0 != volume,
{
    let mut i: usize = 0;
    while i < cache.len()
        invariant
            0 <= i <= cache@.len(),
            forall|j: int| 0 <= j < i ==> cache@[j].0 != volume,
        decreases cache@.len() - i,
    {
        if cache[i].0 == volume {
            return Some(i);
        }
        i = i + 1;
    }
    None
}

impl SeaweedFsClient {
    /// A well-formed client caches each volume at most once and stays within
    /// the cache bound.
    pub open spec fn wf(&self) -> bool {
        unique_volumes(self@.cache) && self@.cache.len() <= CACHE_CAP
    }

    /// Builds a client against the directory service at `directory`
    /// (host and port), with an empty cache.
    pub fn new(directory: String) -> (r: SeaweedFsClient)
        ensures
            r.wf(),
            r@.directory == directory@,
            r@.cache == Seq::<(i16, String)>::empty(),
    {
        let r = SeaweedFsClient { directory, cache: Vec::new() };
        proof {
            assert(r@.cache =~= Seq::<(i16, String)>::empty());
        }
        r
    }

    /// The number of cached volume addresses.
    pub fn cache_len(&self) -> (n: usize)
        ensures
            n == self@.cache.len(),
    {
        self.cache.len()
    }

    /// The cached address of `volume`, if the cache holds one. Borrows the
    /// client immutably: a hit changes nothing and queries nothing.
    pub fn get_volume_addr(&self, volume: i16) -> (r: Option<String>)
        requires
            self.wf(),
        ensures
            r == cache_lookup(self@.cache, volume),
    {
        match find_volume_index(&self.cache, volume) {
            Some(i) => {
                proof {
                    lemma_lookup_at(self.cache@, volume, i as int);
                }
                Some(self.cache[i].1.clone())
            },
            None => {
                proof {
                    lemma_lookup_none_iff(self.cache@, volume);
                }
                None
            },
        }
    }

    /// Caches the address the directory service reported for `volume`,
    /// replacing a previous entry for the same volume and evicting the
    /// oldest entry once the bound is reached. An entry for another volume
    /// is never rewritten, only possibly evicted.
    pub fn cache_volume_addr(&mut self, volume: i16, addr: String)
        requires
            old(self).wf(),
        ensures
            final(self).wf(),
            final(self)@.directory == old(self)@.directory,
            cache_lookup(final(self)@.cache, volume) == Some(addr),
            forall|w: i16|
                w != volume && cache_lookup(final(self)@.cache, w) is Some ==> cache_lookup(
                    final(self)@.cache,
                    w,
                ) == cache_lookup(old(self)@.cache, w),
    {
        let ghost c0 = self.cache@;
        match find_volume_index(&self.cache, volume) {
            Some(i) => {
                let _ = self.cache.remove(i);
                proof {
                    assert forall|w: i16| true implies {
                        &&& (c0[i as int].0 == w ==> cache_lookup(c0.remove(i as int), w) is None)
                        &&& (c0[i as int].0 != w ==> cache_lookup(c0.remove(i as int), w)
                            == cache_lookup(c0, w))
                    } by {
                        lemma_lookup_remove(c0, i as int, w);
                    }
                    lemma_lookup_remove(c0, i as int, volume);
                }
            },
            None => {
                proof {
                    lemma_lookup_none_iff(c0, volume);
                }
            },
        }
        let ghost c1 = self.cache@;
        assert(cache_lookup(c1, volume) is None);
        assert(unique_volumes(c1));
        if self.cache.len() >= CACHE_CAP {
            let _ = self.cache.remove(0);
            proof {
                assert forall|w: i16| true implies {
                    &&& (c1[0].0 == w ==> cache_lookup(c1.remove(0), w) is None)
                    &&& (c1[0].0 != w ==> cache_lookup(c1.remove(0), w) == cache_lookup(c1, w))
                } by {
                    lemma_lookup_remove(c1, 0, w);
                }
            }
        }
        let ghost c2 = self.cache@;
        assert(cache_lookup(c2, volume) is None);
        assert(unique_volumes(c2));
        assert(c2.len() < CACHE_CAP);
        self.cache.push((volume, addr));
        proof {
            let c3 = self.cache@;
            assert(c3 == c2.push((volume, addr)));
            assert forall|w: i16| true implies {
                &&& (cache_lookup(c2, w) is Some ==> cache_lookup(c3, w) == cache_lookup(c2, w))
                &&& (cache_lookup(c2, w) is None && w == volume ==> cache_lookup(c3, w) == Some(
                    addr,
                ))
                &&& (cache_lookup(c2, w) is None && w != volume ==> cache_lookup(c3, w) is None)
            } by {
                lemma_lookup_push(c2, (volume, addr), w);
            }
            lemma_lookup_none_iff(c2, volume);
            assert(unique_volumes(c3)) by {
                assert(forall|a: int| 0 <= a < c2.len() ==> c3[a] == c2[a]);
                assert(c3[c2.len() as int].0 == volume);
            }
        }
    }

    /// Resolves a volume to an address: from the cache when it holds one —
    /// then nothing is queried — and otherwise by directing the caller to
    /// the directory service.
    pub fn resolve_volume_addr(&self, volume: i16) -> (r: AddrResolution)
        requires
            self.wf(),
            volume >= 0,
        ensures
            cache_lookup(self@.cache, volume) matches Some(a) ==> r == AddrResolution::Cached(a),
            cache_lookup(self@.cache, volume) is None ==> (r matches AddrResolution::Query(u)
                && u@ == spec_lookup_url(self@.directory, volume as nat)),
    {
        match self.get_volume_addr(volume) {
            Some(a) => AddrResolution::Cached(a),
            None => AddrResolution::Query(self.lookup_url(volume)),
        }
    }

    /// The directory-service URL that looks `volume` up.
    pub fn lookup_url(&self, volume: i16) -> (r: String)
        requires
            volume >= 0,
        ensures
            r@ == spec_lookup_url(self@.directory, volume as nat),
    {
        let mut s = String::from_str("http://");
        s.append(self.directory.as_str());
        s.append("/dir/lookup?volumeId=");
        append_u16(&mut s, volume as u16);
        proof {
            assert(s@ =~= spec_lookup_url(self@.directory, volume as nat));
        }
        s
    }

    /// The directory-service URL that assigns a fresh location.
    pub fn assign_url(&self) -> (r: String)
        ensures
            r@ == spec_assign_url(self@.directory),
    {
        let mut s = String::from_str("http://");
        s.append(self.directory.as_str());
        s.append("/dir/assign");
        proof {
            assert(s@ =~= spec_assign_url(self@.directory));
        }
        s
    }
}

/// The volume-node URL that addresses the blob `fid` on the node at `addr`.
pub fn file_url(addr: &str, fid: &str) -> (r: String)
    ensures
        r@ == spec_file_url(addr@, fid@),
{
    let mut s = String::from_str("http://");
    s.append(addr);
    s.append("/");
    s.append(fid);
    proof {
        assert(s@ =~= spec_file_url(addr@, fid@));
    }
    s
}

} // verus!
