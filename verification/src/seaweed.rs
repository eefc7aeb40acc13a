//! Storage handles of the blob backend.
//!
//! A handle carries an opaque backend identifier of the shape
//! `"<volume>,<key>"`: the decimal volume number before the first comma is
//! enough to resolve a physical address, and the whole identifier addresses
//! the blob on that node.

use vstd::prelude::*;
use vstd::string::StrSliceExecFns;

verus! {

/// Whether `c` is a decimal digit.
pub open spec fn is_fid_digit(c: char) -> bool {
    48 <= c as u32 <= 57
}

/// The numeric value of a decimal digit character.
pub open spec fn digit_val(c: char) -> int {
    c as u32 - 48
}

/// The numeric value of a sequence of decimal digit characters, most
/// significant first.
pub open spec fn digits_val(s: Seq<char>) -> int
    decreases s.len(),
{
    if s.len() == 0 {
        0
    } else {
        digits_val(s.drop_last()) * 10 + digit_val(s.last())
    }
}

/// The part of `s` before its first comma (all of `s` when no comma occurs).
pub open spec fn prefix_before_comma(s: Seq<char>) -> Seq<char>
    decreases s.len(),
{
    if s.len() == 0 {
        Seq::empty()
    } else if s[0] == ',' {
        Seq::empty()
    } else {
        seq![s[0]] + prefix_before_comma(s.drop_first())
    }
}

/// Whether every character of `s` is a decimal digit.
pub open spec fn all_digits(s: Seq<char>) -> bool {
    forall|i: int| 0 <= i < s.len() ==> is_fid_digit(s[i])
}

/// A well-formed backend identifier: its part before the first comma is a
/// non-empty run of decimal digits whose value fits the volume number type.
pub open spec fn wf_fid(s: Seq<char>) -> bool {
    let p = prefix_before_comma(s);
    p.len() > 0 && all_digits(p) && digits_val(p) <= 32767
}

/// The volume number a well-formed backend identifier encodes.
pub open spec fn fid_volume(s: Seq<char>) -> int {
    digits_val(prefix_before_comma(s))
}

/// Where the first comma sits at position `k`, the prefix before the comma
/// is exactly `s[0..k]`.
proof fn lemma_prefix_structure(s: Seq<char>, k: int)
    requires
        0 <= k <= s.len(),
        forall|j: int| 0 <= j < k ==> s[j] != ',',
        k == s.len() || s[k] == ',',
    ensures
        prefix_before_comma(s) == s.subrange(0, k),
    decreases s.len(),
{
    if s.len() == 0 {
        assert(prefix_before_comma(s) =~= s.subrange(0, 0));
    } else if k == 0 {
        assert(s[0] == ',');
        assert(prefix_before_comma(s) =~= s.subrange(0, 0));
    } else {
        let t = s.drop_first();
        assert(forall|j: int| 0 <= j < k - 1 ==> t[j] == s[j + 1] && s[j + 1] != ',');
        assert(k - 1 == t.len() || t[k - 1] == ',');
        lemma_prefix_structure(t, k - 1);
        assert(prefix_before_comma(s) == seq![s[0]] + t.subrange(0, k - 1));
        assert(seq![s[0]] + t.subrange(0, k - 1) =~= s.subrange(0, k));
    }
}

/// While no comma has occurred up to position `m`, the prefix before the
/// comma covers position `m` and agrees with `s` there.
proof fn lemma_prefix_index(s: Seq<char>, m: int)
    requires
        0 <= m < s.len(),
        forall|j: int| 0 <= j <= m ==> s[j] != ',',
    ensures
        prefix_before_comma(s).len() > m,
        forall|j: int| 0 <= j <= m ==> prefix_before_comma(s)[j] == s[j],
    decreases s.len(),
{
    let p = prefix_before_comma(s);
    assert(s[0] != ',');
    let t = s.drop_first();
    assert(p == seq![s[0]] + prefix_before_comma(t));
    if m == 0 {
        assert(p[0] == s[0]);
    } else {
        assert(forall|j: int| 0 <= j <= m - 1 ==> t[j] == s[j + 1] && s[j + 1] != ',');
        lemma_prefix_index(t, m - 1);
        assert(forall|j: int| 1 <= j <= m ==> p[j] == prefix_before_comma(t)[j - 1] && prefix_before_comma(
            t,
        )[j - 1] == t[j - 1] && t[j - 1] == s[j]);
    }
}

/// Extending a digit run by one digit multiplies its value by ten and adds
/// the digit.
proof fn lemma_digits_val_step(s: Seq<char>, i: int)
    requires
        0 <= i < s.len(),
    ensures
        digits_val(s.subrange(0, i + 1)) == digits_val(s.subrange(0, i)) * 10 + digit_val(s[i]),
{
    assert(s.subrange(0, i + 1).drop_last() =~= s.subrange(0, i));
    assert(s.subrange(0, i + 1).last() == s[i]);
}

/// The value of a digit run never falls below the value of any of its
/// prefixes.
proof fn lemma_digits_val_prefix_le(s: Seq<char>, m: int)
    requires
        0 <= m <= s.len(),
        all_digits(s),
    ensures
        0 <= digits_val(s.subrange(0, m)) <= digits_val(s),
    decreases s.len() - m,
{
    if m == s.len() {
        assert(s.subrange(0, m) =~= s);
        lemma_digits_val_nonneg(s);
    } else {
        lemma_digits_val_step(s, m);
        lemma_digits_val_nonneg(s.subrange(0, m));
        lemma_digits_val_prefix_le(s, m + 1);
    }
}

/// The value of a digit run is never negative.
proof fn lemma_digits_val_nonneg(s: Seq<char>)
    requires
        all_digits(s),
    ensures
        digits_val(s) >= 0,
    decreases s.len(),
{
    if s.len() > 0 {
        assert(all_digits(s.drop_last()));
        lemma_digits_val_nonneg(s.drop_last());
    }
}

/// A handle for one blob in the backend: a located volume plus a key inside
/// it, as one opaque identifier string. Owned exclusively by its resource.
pub struct SeaweedFsId {
    id: String,
}

impl View for SeaweedFsId {
    type V = Seq<char>;

    closed spec fn view(&self) -> Seq<char> {
        self.id@
    }
}

impl Clone for SeaweedFsId {
    /// Clones the handle, keeping the identifier.
    fn clone(&self) -> (r: Self)
        ensures
            r@ == self@,
    {
        SeaweedFsId { id: self.id.clone() }
    }
}

impl SeaweedFsId {
    /// Wraps a freshly assigned backend identifier.
    pub fn new(fid: String) -> (r: Self)
        ensures
            r@ == fid@,
    {
        SeaweedFsId { id: fid }
    }

    /// Parses the volume number out of the identifier: `Some` exactly for a
    /// well-formed identifier, whose encoded volume it returns.
    pub fn parse_volume(&self) -> (r: Option<i16>)
        ensures
            r is Some <==> wf_fid(self@),
            r matches Some(v) ==> v >= 0 && v as int == fid_volume(self@),
    {
        let s: &str = self.id.as_str();
        let n: usize = s.unicode_len();
        let mut i: usize = 0;
        let mut v: u32 = 0;
        while i < n
            invariant
                s@ == self@,
                n == s@.len(),
                0 <= i <= n,
                forall|j: int| 0 <= j < i ==> s@[j] != ',' && is_fid_digit(s@[j]),
                v as int == digits_val(s@.subrange(0, i as int)),
                v <= 32767,
            decreases n - i,
        {
            let c = s.get_char(i);
            if c == ',' {
                proof {
                    lemma_prefix_structure(s@, i as int);
                }
                if i == 0 {
                    return None;
                }
                return Some(v as i16);
            }
            let cv = c as u32;
            if cv < 48 || cv > 57 {
                proof {
                    lemma_prefix_index(s@, i as int);
                }
                return None;
            }
            let d = cv - 48;
            proof {
                lemma_digits_val_step(s@, i as int);
            }
            let v2 = v * 10 + d;
            if v2 > 32767 {
                proof {
                    lemma_prefix_index(s@, i as int);
                    let p = prefix_before_comma(s@);
                    assert(p.subrange(0, i + 1) =~= s@.subrange(0, i + 1));
                    if wf_fid(s@) {
                        lemma_digits_val_prefix_le(p, i + 1);
                    }
                }
                return None;
            }
            v = v2;
            i = i + 1;
        }
        proof {
            lemma_prefix_structure(s@, n as int);
        }
        if n == 0 {
            return None;
        }
        Some(v as i16)
    }

    /// The volume number the identifier encodes. The identifier must be
    /// well formed; [`Self::parse_volume`] checks that.
    pub fn get_volume(&self) -> (r: i16)
        requires
            wf_fid(self@),
        ensures
            r >= 0,
            r as int == fid_volume(self@),
    {
        match self.parse_volume() {
            Some(v) => v,
            None => {
                proof {
                    assert(false);
                }
                0
            },
        }
    }

    /// The opaque backend identifier.
    pub fn get_uid(&self) -> (r: &String)
        ensures
            r@ == self@,
    {
        &self.id
    }

    /// Rebuilds a handle from a stored identifier.
    pub fn from_uid(uid: String) -> (r: Self)
        ensures
            r@ == uid@,
    {
        SeaweedFsId { id: uid }
    }
}

} // verus!
