//! Key-value capabilities: atomic counters and an eventually-consistent
//! byte store, each modelled as a map keyed by (bucket, key).

use vstd::prelude::*;

use crate::errors::{is_provider_fault, CapabilityError};

verus! {

/// The counter value after adding `delta` to `prev`, wrapping on overflow.
pub open spec fn wrapping_added(prev: u64, delta: u64) -> u64 {
    if prev + delta <= u64::MAX {
        (prev + delta) as u64
    } else {
        (prev + delta - 0x1_0000_0000_0000_0000) as u64
    }
}

/// What a successful `increment` guarantees: the counter, created at zero if
/// absent, grows by `delta` (wrapping) and the new value is returned.
pub open spec fn increment_post(
    pre: Map<(Seq<char>, Seq<char>), u64>,
    post: Map<(Seq<char>, Seq<char>), u64>,
    bucket: Seq<char>,
    key: Seq<char>,
    delta: u64,
    r: Result<u64, CapabilityError>,
) -> bool {
    &&& (r matches Ok(v) ==> ({
        let k = (bucket, key);
        let prev = if pre.contains_key(k) {
            pre[k]
        } else {
            0
        };
        &&& v == wrapping_added(prev, delta)
        &&& post == pre.insert(k, v)
    }))
    &&& (r matches Err(e) ==> is_provider_fault(e) || e is Malformed)
}

/// What a successful `compare_and_swap` guarantees: `true` and the new value
/// stored exactly when the stored value equalled the expected one; `false`
/// and the store unchanged otherwise. A mismatch is a legitimate negative
/// result, not an error, and is never destructive.
pub open spec fn compare_and_swap_post(
    pre: Map<(Seq<char>, Seq<char>), u64>,
    post: Map<(Seq<char>, Seq<char>), u64>,
    bucket: Seq<char>,
    key: Seq<char>,
    old_value: u64,
    new_value: u64,
    r: Result<bool, CapabilityError>,
) -> bool {
    &&& (r matches Ok(b) ==> ({
        let k = (bucket, key);
        let matched = pre.contains_key(k) && pre[k] == old_value;
        &&& b == matched
        &&& (matched ==> post == pre.insert(k, new_value))
        &&& (!matched ==> post == pre)
    }))
    &&& (r matches Err(e) ==> is_provider_fault(e) || e is Malformed)
}

/// Law: a successful compare-and-swap returns `true` and stores the new
/// value exactly when the stored value equals the expected one, and returns
/// `false` leaving the store unchanged when it does not — never destructive
/// on a mismatch.
pub proof fn lemma_compare_and_swap_exact(
    pre: Map<(Seq<char>, Seq<char>), u64>,
    post: Map<(Seq<char>, Seq<char>), u64>,
    bucket: Seq<char>,
    key: Seq<char>,
    old_value: u64,
    new_value: u64,
    r: Result<bool, CapabilityError>,
)
    requires
        compare_and_swap_post(pre, post, bucket, key, old_value, new_value, r),
        r is Ok,
    ensures
        ({
            let k = (bucket, key);
            let matched = pre.contains_key(k) && pre[k] == old_value;
            &&& r == Result::<bool, CapabilityError>::Ok(matched)
            &&& (matched ==> post == pre.insert(k, new_value))
            &&& (!matched ==> post == pre)
        }),
{
}

/// What `get` guarantees: the stored bytes and their length, or `None`
/// exactly when the key is absent.
pub open spec fn kv_get_post(
    m: Map<(Seq<char>, Seq<char>), Seq<u8>>,
    bucket: Seq<char>,
    key: Seq<char>,
    r: Result<Option<(Vec<u8>, u64)>, CapabilityError>,
) -> bool {
    &&& (r matches Ok(o) ==> ({
        let k = (bucket, key);
        match o {
            Some((d, l)) => m.contains_key(k) && d@ == m[k] && l == d@.len(),
            None => !m.contains_key(k),
        }
    }))
    &&& (r matches Err(e) ==> is_provider_fault(e) || e is Malformed)
}

/// What a successful `set` guarantees: the key holds exactly the new value.
pub open spec fn kv_set_post(
    pre: Map<(Seq<char>, Seq<char>), Seq<u8>>,
    post: Map<(Seq<char>, Seq<char>), Seq<u8>>,
    bucket: Seq<char>,
    key: Seq<char>,
    value: Seq<u8>,
    r: Result<(), CapabilityError>,
) -> bool {
    &&& (r is Ok ==> post == pre.insert((bucket, key), value))
    &&& (r matches Err(e) ==> is_provider_fault(e) || e is Malformed)
}

/// What a successful `delete` guarantees: the key is gone; deleting an
/// absent key is not an error.
pub open spec fn kv_delete_post(
    pre: Map<(Seq<char>, Seq<char>), Seq<u8>>,
    post: Map<(Seq<char>, Seq<char>), Seq<u8>>,
    bucket: Seq<char>,
    key: Seq<char>,
    r: Result<(), CapabilityError>,
) -> bool {
    &&& (r is Ok ==> post == pre.remove((bucket, key)))
    &&& (r matches Err(e) ==> is_provider_fault(e) || e is Malformed)
}

/// What `exists` guarantees: a boolean answer reflecting the store.
pub open spec fn kv_exists_post(
    m: Map<(Seq<char>, Seq<char>), Seq<u8>>,
    bucket: Seq<char>,
    key: Seq<char>,
    r: Result<bool, CapabilityError>,
) -> bool {
    &&& (r matches Ok(b) ==> b == m.contains_key((bucket, key)))
    &&& (r matches Err(e) ==> is_provider_fault(e) || e is Malformed)
}

/// Contract of an atomic key-value provider: monotonic counters with
/// increment and compare-and-swap. Concurrency safety is the backend's
/// responsibility; the contract states the effect of each successful call.
pub trait KeyValueAtomic: Sized {
    /// The provider's counters, keyed by (bucket, key). An absent key counts
    /// as zero.
    spec fn counters(&self) -> Map<(Seq<char>, Seq<char>), u64>;

    /// Add `delta` to the counter, creating it at zero first if absent, and
    /// return the new value.
    fn increment(&mut self, bucket: &str, key: String, delta: u64) -> (r: Result<
        u64,
        CapabilityError,
    >)
        ensures
            increment_post(old(self).counters(), final(self).counters(), bucket@, key@, delta, r),
    ;

    /// Store `new_value` and return `true` when the stored value equals
    /// `old_value` (an absent key matches nothing); return `false` and leave
    /// the stored value unchanged when it does not.
    fn compare_and_swap(&mut self, bucket: &str, key: String, old_value: u64, new_value: u64) -> (r:
        Result<bool, CapabilityError>)
        ensures
            compare_and_swap_post(
                old(self).counters(),
                final(self).counters(),
                bucket@,
                key@,
                old_value,
                new_value,
                r,
            ),
    ;
}

/// Contract of an eventually-consistent key-value provider: get, set,
/// delete and an existence check over byte values. "Eventual" signals no
/// strong read-after-write ordering across replicas; the model states the
/// provider's local view.
pub trait KeyValueEventual: Sized {
    /// The provider's entries, keyed by (bucket, key).
    spec fn entries(&self) -> Map<(Seq<char>, Seq<char>), Seq<u8>>;

    /// The stored value and its length, or nothing when the key is absent.
    fn get(&self, bucket: &str, key: String) -> (r: Result<
        Option<(Vec<u8>, u64)>,
        CapabilityError,
    >)
        ensures
            kv_get_post(self.entries(), bucket@, key@, r),
    ;

    /// Replace the stored value.
    fn set(&mut self, bucket: &str, key: String, value: Vec<u8>) -> (r: Result<
        (),
        CapabilityError,
    >)
        ensures
            kv_set_post(old(self).entries(), final(self).entries(), bucket@, key@, value@, r),
    ;

    /// Remove the stored value; deleting an absent key is not an error.
    fn delete(&mut self, bucket: &str, key: String) -> (r: Result<(), CapabilityError>)
        ensures
            kv_delete_post(old(self).entries(), final(self).entries(), bucket@, key@, r),
    ;

    /// Whether a value is stored under the key.
    fn has_entry(&self, bucket: &str, key: String) -> (r: Result<bool, CapabilityError>)
        ensures
            kv_exists_post(self.entries(), bucket@, key@, r),
    ;
}

} // verus!
