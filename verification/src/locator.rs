//! Device identification: composing descriptor strings into a device name
//! and deciding whether a device is the monitored UPS.
//!
//! The caller enumerates devices and reads their manufacturer and product
//! descriptor strings (handing in `None` for a string it could not read);
//! the decisions about naming and matching live here.

use vstd::prelude::*;
use vstd::string::{StrSliceExecFns, StringExecFns};

verus! {

/// `needle` occurs in `hay` starting at index `i`.
pub open spec fn match_at(hay: Seq<char>, needle: Seq<char>, i: int) -> bool {
    &&& 0 <= i
    &&& i + needle.len() <= hay.len()
    &&& forall|j: int| 0 <= j < needle.len() ==> hay[i + j] == needle[j]
}

/// `needle` occurs somewhere in `hay`.
pub open spec fn contains_seq(hay: Seq<char>, needle: Seq<char>) -> bool {
    exists|i: int| match_at(hay, needle, i)
}

/// Whether `needle` occurs as a contiguous substring of `hay`.
pub fn str_contains(hay: &str, needle: &str) -> (r: bool)
    ensures
        r == contains_seq(hay@, needle@),
{
    let hay_len = hay.unicode_len();
    let needle_len = needle.unicode_len();
    if needle_len > hay_len {
        assert(forall|i: int| !match_at(hay@, needle@, i));
        return false;
    }
    let mut i: usize = 0;
    while i <= hay_len - needle_len
        invariant
            needle_len <= hay_len,
            hay_len == hay@.len(),
            needle_len == needle@.len(),
            i <= hay_len - needle_len + 1,
            forall|k: int| 0 <= k < i ==> !match_at(hay@, needle@, k),
        decreases hay_len - needle_len + 1 - i,
    {
        if matches_from(hay, needle, i) {
            return true;
        }
        i = i + 1;
    }
    proof {
        // Every start index at or past `i` leaves too little room for the
        // needle, and every earlier one was ruled out by the loop.
        assert forall|k: int| !match_at(hay@, needle@, k) by {
            if 0 <= k < i as int {
            }
        }
    }
    false
}

/// Whether all of `needle` occurs in `hay` starting at index `i`.
fn matches_from(hay: &str, needle: &str, i: usize) -> (r: bool)
    requires
        i + needle@.len() <= hay@.len(),
        hay@.len() <= usize::MAX,
    ensures
        r == match_at(hay@, needle@, i as int),
{
    let needle_len = needle.unicode_len();
    let mut j: usize = 0;
    while j < needle_len
        invariant
            needle_len == needle@.len(),
            i + needle_len <= hay@.len(),
            hay@.len() <= usize::MAX,
            j <= needle_len,
            forall|l: int| 0 <= l < j ==> hay@[i + l] == needle@[l],
        decreases needle_len - j,
    {
        if hay.get_char(i + j) != needle.get_char(j) {
            return false;
        }
        j = j + 1;
    }
    true
}

/// `s` with every trailing null character removed.
pub open spec fn trim_nulls(s: Seq<char>) -> Seq<char>
    decreases s.len(),
{
    if s.len() > 0 && s[s.len() - 1] == '\0' {
        trim_nulls(s.drop_last())
    } else {
        s
    }
}

/// Trimming removes all trailing nulls: the result never ends in one.
pub proof fn lemma_trim_no_trailing_null(s: Seq<char>)
    ensures
        trim_nulls(s).len() > 0 ==> trim_nulls(s)[trim_nulls(s).len() - 1] != '\0',
    decreases s.len(),
{
    if s.len() > 0 && s[s.len() - 1] == '\0' {
        lemma_trim_no_trailing_null(s.drop_last());
    }
}

/// Copy `s` without its trailing null characters.
pub fn trim_trailing_nulls(s: &str) -> (r: String)
    ensures
        r@ == trim_nulls(s@),
{
    let len = s.unicode_len();
    let mut k: usize = len;
    proof {
        assert(s@.subrange(0, len as int) =~= s@);
    }
    while k > 0 && s.get_char(k - 1) == '\0'
        invariant
            k <= len,
            len == s@.len(),
            trim_nulls(s@) == trim_nulls(s@.subrange(0, k as int)),
        decreases k,
    {
        proof {
            assert(s@.subrange(0, k as int).drop_last() =~= s@.subrange(0, k - 1));
        }
        k = k - 1;
    }
    String::from_str(s.substring_char(0, k))
}

/// The name used for a descriptor string that could not be read.
pub open spec fn name_or_unknown(o: Option<String>) -> Seq<char> {
    match o {
        Some(s) => s@,
        None => "<unknown>"@,
    }
}

/// Compose the device name shown for a device: its manufacturer string and
/// its product string separated by one space, each replaced by a placeholder
/// when it could not be read.
pub fn compose_device_name(manufacturer: &Option<String>, product: &Option<String>) -> (r: String)
    ensures
        r@ == name_or_unknown(*manufacturer) + " "@ + name_or_unknown(*product),
{
    let mut r = match manufacturer {
        Some(s) => s.clone(),
        None => String::from_str("<unknown>"),
    };
    r.append(" ");
    match product {
        Some(s) => r.append(s.as_str()),
        None => r.append("<unknown>"),
    };
    r
}

/// Identity of one enumerated device, derived once during the scan.
pub struct DeviceIdentity {
    pub vendor_id: u16,
    pub product_id: u16,
    /// Composed name, still carrying any trailing nulls the device reported.
    pub name: String,
}

impl DeviceIdentity {
    /// Whether this device is the monitored UPS: its composed name carries
    /// the vendor-identifying marker.
    pub fn is_ups(&self) -> (r: bool)
        ensures
            r == contains_seq(self.name@, "CPS"@),
    {
        str_contains(self.name.as_str(), "CPS")
    }
}

} // verus!
