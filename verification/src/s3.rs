//! Decision logic of the remote object-storage blobstore provider.
//!
//! The provider maps each blobstore contract operation to one or more
//! remote calls; the network calls themselves live outside the library, and
//! each outcome is handed back here as plain values to be normalized into
//! the contract: a "no such key" backend error on reads becomes the
//! contract's missing-object result, any other backend error is wrapped
//! with call-specific context, and timestamps normalize to unsigned
//! seconds-since-epoch with negative or missing values normalizing to zero.

use vstd::prelude::*;

use crate::blobstore::{ContainerMetadata, ObjectMetadata};
use crate::errors::CapabilityError;

verus! {

/// The decimal digit character for `d` (0 to 9).
pub open spec fn dec_digit(d: nat) -> char {
    if d == 0 {
        '0'
    } else if d == 1 {
        '1'
    } else if d == 2 {
        '2'
    } else if d == 3 {
        '3'
    } else if d == 4 {
        '4'
    } else if d == 5 {
        '5'
    } else if d == 6 {
        '6'
    } else if d == 7 {
        '7'
    } else if d == 8 {
        '8'
    } else {
        '9'
    }
}

/// The decimal rendering of `n`, most significant digit first.
pub open spec fn dec_str(n: nat) -> Seq<char>
    decreases n,
{
    if n < 10 {
        seq![dec_digit(n)]
    } else {
        dec_str(n / 10) + seq![dec_digit(n % 10)]
    }
}

/// The one-character string for digit `d`.
fn digit_str(d: u64) -> (r: &'static str)
    requires
        d < 10,
    ensures
        r@ == seq![dec_digit(d as nat)],
{
    if d == 0 {
        proof {
            reveal_strlit("0");
        }
        "0"
    } else if d == 1 {
        proof {
            reveal_strlit("1");
        }
        "1"
    } else if d == 2 {
        proof {
            reveal_strlit("2");
        }
        "2"
    } else if d == 3 {
        proof {
            reveal_strlit("3");
        }
        "3"
    } else if d == 4 {
        proof {
            reveal_strlit("4");
        }
        "4"
    } else if d == 5 {
        proof {
            reveal_strlit("5");
        }
        "5"
    } else if d == 6 {
        proof {
            reveal_strlit("6");
        }
        "6"
    } else if d == 7 {
        proof {
            reveal_strlit("7");
        }
        "7"
    } else if d == 8 {
        proof {
            reveal_strlit("8");
        }
        "8"
    } else {
        proof {
            reveal_strlit("9");
        }
        "9"
    }
}

/// The decimal rendering of `n` as a string.
pub fn u64_to_dec(n: u64) -> (r: String)
    ensures
        r@ == dec_str(n as nat),
    decreases n,
{
    if n < 10 {
        String::from_str(digit_str(n))
    } else {
        let mut s = u64_to_dec(n / 10);
        s.append(digit_str(n % 10));
        s
    }
}

/// The HTTP `Range` header value for an inclusive byte range, as the remote
/// ranged read expects it: `bytes=<start>-<end>`.
pub fn range_header(start: u64, end: u64) -> (r: String)
    ensures
        r@ == "bytes="@ + dec_str(start as nat) + "-"@ + dec_str(end as nat),
{
    let mut s = String::from_str("bytes=");
    let ds = u64_to_dec(start);
    s.append(ds.as_str());
    s.append("-");
    let de = u64_to_dec(end);
    s.append(de.as_str());
    s
}

/// A backend timestamp normalized to unsigned seconds since the epoch:
/// negative or missing values normalize to zero.
pub open spec fn created_at_spec(secs: Option<i64>) -> u64 {
    match secs {
        Some(s) => if s >= 0 {
            s as u64
        } else {
            0
        },
        None => 0,
    }
}

/// Normalize a backend timestamp to unsigned seconds since the epoch.
pub fn created_at_seconds(secs: Option<i64>) -> (r: u64)
    ensures
        r == created_at_spec(secs),
{
    match secs {
        Some(s) => if s >= 0 {
            s as u64
        } else {
            0
        },
        None => 0,
    }
}

/// `l` reinterpreted as an unsigned 64-bit value, as the backend's signed
/// content length is reinterpreted when it crosses into the contract.
pub open spec fn wrap_to_u64(l: int) -> int {
    if l >= 0 {
        l
    } else {
        l + 0x1_0000_0000_0000_0000
    }
}

/// A backend content length, missing values counting as zero, as an
/// unsigned 64-bit value.
pub fn content_length_u64(len: Option<i64>) -> (r: u64)
    ensures
        r == wrap_to_u64(
            match len {
                Some(l) => l as int,
                None => 0,
            },
        ),
{
    match len {
        Some(l) => if l >= 0 {
            l as u64
        } else {
            u64::MAX - ((-(l + 1)) as u64)
        },
        None => 0,
    }
}

/// Outcome of a remote single-object read, as plain values.
#[derive(Debug)]
pub enum GetObjectOutcome {
    /// The object exists; the backend reported this content length.
    Found {
        /// Content length the backend reported, if any.
        content_length: Option<i64>,
    },
    /// The backend reported that no such key exists.
    NoSuchKey,
    /// Any other backend error, rendered as text.
    Failure(String),
}

/// Outcome of a remote object-metadata read, as plain values.
pub enum ObjectStatOutcome {
    /// The object exists, with the backend's reported length and
    /// last-modified time.
    Found {
        /// Content length the backend reported, if any.
        content_length: Option<i64>,
        /// Last-modified time in signed seconds since the epoch, if any.
        last_modified_secs: Option<i64>,
    },
    /// Any backend error, rendered as text.
    Failure(String),
}

/// Where the bytes of a read come from: the backend's body stream, or a
/// fixed empty stream standing in for a missing object.
#[derive(Debug)]
pub enum DataSource {
    /// Stream the backend's response body.
    Backend,
    /// An empty zero-length stream: the object does not exist.
    Empty,
}

/// Normalize a ranged-read outcome: a missing key yields an empty
/// zero-length stream rather than an error — deliberate, so "missing" and
/// "empty" are indistinguishable to the guest — and any other backend error
/// propagates.
pub fn get_data_result(outcome: GetObjectOutcome) -> (r: Result<
    (DataSource, u64),
    CapabilityError,
>)
    ensures
        match outcome {
            GetObjectOutcome::Found { content_length } => r matches Ok((src, len))
                && src is Backend && len == wrap_to_u64(
                match content_length {
                    Some(l) => l as int,
                    None => 0,
                },
            ),
            GetObjectOutcome::NoSuchKey => r matches Ok((src, len)) && src is Empty && len == 0,
            GetObjectOutcome::Failure(m) => r matches Err(e) && (e
                matches CapabilityError::BackendFault(t) && t@ == m@),
        },
{
    match outcome {
        GetObjectOutcome::Found { content_length } => Ok(
            (DataSource::Backend, content_length_u64(content_length)),
        ),
        GetObjectOutcome::NoSuchKey => Ok((DataSource::Empty, 0)),
        GetObjectOutcome::Failure(m) => Err(CapabilityError::BackendFault(m)),
    }
}

/// Normalize an existence-check outcome: a found object is `true`, a
/// missing key is `false` — never an error — and any other backend error
/// propagates.
pub fn has_object_result(outcome: GetObjectOutcome) -> (r: Result<bool, CapabilityError>)
    ensures
        match outcome {
            GetObjectOutcome::Found { .. } => r == Result::<bool, CapabilityError>::Ok(true),
            GetObjectOutcome::NoSuchKey => r == Result::<bool, CapabilityError>::Ok(false),
            GetObjectOutcome::Failure(m) => r matches Err(e) && (e
                matches CapabilityError::BackendFault(t) && t@ == m@),
        },
{
    match outcome {
        GetObjectOutcome::Found { .. } => Ok(true),
        GetObjectOutcome::NoSuchKey => Ok(false),
        GetObjectOutcome::Failure(m) => Err(CapabilityError::BackendFault(m)),
    }
}

/// Build object metadata from a metadata-read outcome: the backend is
/// authoritative for size and creation time, and any backend error is
/// wrapped with call-specific context.
pub fn object_info_result(outcome: ObjectStatOutcome, container: &str, name: String) -> (r: Result<
    ObjectMetadata,
    CapabilityError,
>)
    ensures
        match outcome {
            ObjectStatOutcome::Found { content_length, last_modified_secs } => r matches Ok(m) && ({
                &&& m.name@ == name@
                &&& m.container@ == container@
                &&& m.size == wrap_to_u64(
                    match content_length {
                        Some(l) => l as int,
                        None => 0,
                    },
                )
                &&& m.created_at == created_at_spec(last_modified_secs)
            }),
            ObjectStatOutcome::Failure(m) => r matches Err(e) && e.message_spec()
                == "Failed to get object info"@ + ": "@ + m@,
        },
{
    match outcome {
        ObjectStatOutcome::Found { content_length, last_modified_secs } => Ok(
            ObjectMetadata {
                name,
                container: String::from_str(container),
                size: content_length_u64(content_length),
                created_at: created_at_seconds(last_modified_secs),
            },
        ),
        ObjectStatOutcome::Failure(m) => Err(
            crate::errors::with_context(
                "Failed to get object info",
                CapabilityError::BackendFault(m),
            ),
        ),
    }
}

/// Whether a listing of container names includes `name`. The backend hands
/// each name back as optional; a missing name matches nothing.
pub fn bucket_listed(buckets: &Vec<Option<String>>, name: &str) -> (r: bool)
    ensures
        r == exists|i: int|
            0 <= i < buckets@.len() && (#[trigger] buckets@[i]) is Some && buckets@[i]->Some_0@
                == name@,
{
    let name_string = String::from_str(name);
    let mut i: usize = 0;
    while i < buckets.len()
        invariant
            i <= buckets@.len(),
            name_string@ == name@,
            forall|j: int|
                0 <= j < i ==> !((#[trigger] buckets@[j]) is Some && buckets@[j]->Some_0@
                    == name@),
        decreases buckets@.len() - i,
    {
        match &buckets[i] {
            Some(s) => {
                if *s == name_string {
                    assert(buckets@[i as int] is Some && buckets@[i as int]->Some_0@ == name@);
                    return true;
                }
            },
            None => {},
        }
        i = i + 1;
    }
    false
}

/// Find the named container in a listing of (name, creation time) pairs and
/// build its metadata, the creation time normalized; fail with a not-found
/// error when no entry carries the name.
pub fn container_info_result(buckets: &Vec<(Option<String>, Option<i64>)>, name: &str) -> (r:
    Result<ContainerMetadata, CapabilityError>)
    ensures
        match r {
            Ok(m) => ({
                &&& m.name@ == name@
                &&& exists|i: int|
                    ({
                        &&& 0 <= i < buckets@.len()
                        &&& #[trigger] buckets@[i].0 matches Some(s) && s@ == name@
                        &&& m.created_at == created_at_spec(buckets@[i].1)
                        &&& forall|j: int|
                            0 <= j < i ==> !(#[trigger] buckets@[j].0 matches Some(t) && t@
                                == name@)
                    })
            }),
            Err(e) => {
                &&& e is NotFound
                &&& e.message_spec() == "Container not found"@
                &&& forall|i: int|
                    0 <= i < buckets@.len() ==> !(#[trigger] buckets@[i].0 matches Some(s) && s@
                        == name@)
            },
        },
{
    let name_string = String::from_str(name);
    let mut i: usize = 0;
    while i < buckets.len()
        invariant
            i <= buckets@.len(),
            name_string@ == name@,
            forall|j: int|
                0 <= j < i ==> !(#[trigger] buckets@[j].0 matches Some(t) && t@ == name@),
        decreases buckets@.len() - i,
    {
        let hit = match &buckets[i].0 {
            Some(s) => *s == name_string,
            None => false,
        };
        if hit {
            let created_at = created_at_seconds(buckets[i].1);
            assert(buckets@[i as int].0 matches Some(s) && s@ == name@);
            return Ok(ContainerMetadata { name: String::from_str(name), created_at });
        }
        i = i + 1;
    }
    Err(CapabilityError::NotFound(String::from_str("Container not found")))
}

/// Unwrap one backend page of object keys into the listing the contract
/// hands out. The backend reports every key; an entry without one is
/// outside the provider's expectations and is refused by precondition, as
/// the provider would fail on it.
pub fn list_keys(keys: Vec<Option<String>>) -> (r: Vec<String>)
    requires
        forall|i: int| 0 <= i < keys@.len() ==> keys@[i] is Some,
    ensures
        r@.len() == keys@.len(),
        forall|i: int| 0 <= i < keys@.len() ==> (keys@[i] matches Some(s) && #[trigger] r@[i] == s),
{
    let mut r: Vec<String> = Vec::new();
    let mut i: usize = 0;
    while i < keys.len()
        invariant
            i <= keys@.len(),
            forall|j: int| 0 <= j < keys@.len() ==> keys@[j] is Some,
            r@.len() == i,
            forall|j: int| 0 <= j < i ==> (keys@[j] matches Some(s) && #[trigger] r@[j] == s),
        decreases keys@.len() - i,
    {
        match &keys[i] {
            Some(s) => {
                r.push(s.clone());
            },
            None => {
                proof {
                    assert(keys@[i as int] is Some);
                }
                vstd::pervasive::unreached()
            },
        }
        i = i + 1;
    }
    r
}

/// Map the outcome of submitting a remote call that returns no data: a
/// backend error is wrapped with call-specific context.
pub fn submit_result(context: &str, outcome: Result<(), String>) -> (r: Result<
    (),
    CapabilityError,
>)
    ensures
        match outcome {
            Ok(()) => r is Ok,
            Err(m) => r matches Err(e) && (e matches CapabilityError::BackendFault(t) && t@
                == context@ + ": "@ + m@),
        },
{
    match outcome {
        Ok(()) => Ok(()),
        Err(m) => Err(
            crate::errors::with_context(context, CapabilityError::BackendFault(m)),
        ),
    }
}

} // verus!
