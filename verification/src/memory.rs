//! In-memory providers: map-backed reference implementations of the
//! capability contracts, with the provider state held as a log of entries in
//! which a later entry for a key overrides an earlier one.

use vstd::prelude::*;

use crate::blobstore::{
    drop_container_objects, ranged_bytes, remove_names, string_views, BlobModel, Blobstore,
    ContainerMetadata, ObjectMetadata, ObjectModel,
};
use crate::errors::CapabilityError;
use crate::keyvalue::{KeyValueAtomic, KeyValueEventual};

verus! {

/// One (bucket, key, value) entry of an in-memory key-value store.
pub struct MemoryKeyValueEntry<V> {
    /// Bucket the entry belongs to.
    pub bucket: String,
    /// Key within the bucket.
    pub key: String,
    /// Stored value.
    pub value: V,
}

/// The (bucket, key) pair an entry is stored under.
pub open spec fn entry_key<V>(e: MemoryKeyValueEntry<V>) -> (Seq<char>, Seq<char>) {
    (e.bucket@, e.key@)
}

/// The map a log of entries denotes: a later entry for a key overrides an
/// earlier one.
pub open spec fn entries_map<V: View>(s: Seq<MemoryKeyValueEntry<V>>) -> Map<
    (Seq<char>, Seq<char>),
    V::V,
>
    decreases s.len(),
{
    if s.len() == 0 {
        Map::empty()
    } else {
        entries_map(s.drop_last()).insert(entry_key(s.last()), s.last().value@)
    }
}

/// Appending an entry updates the denoted map at the entry's key.
proof fn lemma_entries_map_push<V: View>(s: Seq<MemoryKeyValueEntry<V>>, e: MemoryKeyValueEntry<V>)
    ensures
        entries_map(s.push(e)) == entries_map(s).insert(entry_key(e), e.value@),
{
    assert(s.push(e).drop_last() =~= s);
    assert(s.push(e).last() == e);
}

/// The denoted map has a key exactly when some entry carries it.
proof fn lemma_entries_map_contains<V: View>(
    s: Seq<MemoryKeyValueEntry<V>>,
    k: (Seq<char>, Seq<char>),
)
    ensures
        entries_map(s).contains_key(k) <==> exists|i: int|
            0 <= i < s.len() && entry_key(s[i]) == k,
    decreases s.len(),
{
    if s.len() > 0 {
        lemma_entries_map_contains(s.drop_last(), k);
        if entries_map(s).contains_key(k) {
            if entry_key(s.last()) == k {
                assert(entry_key(s[s.len() - 1]) == k);
            } else {
                let i = choose|i: int|
                    0 <= i < s.drop_last().len() && entry_key(s.drop_last()[i]) == k;
                assert(entry_key(s[i]) == k);
            }
        }
        if exists|i: int| 0 <= i < s.len() && entry_key(s[i]) == k {
            let i = choose|i: int| 0 <= i < s.len() && entry_key(s[i]) == k;
            if i < s.len() - 1 {
                assert(entry_key(s.drop_last()[i]) == k);
            }
        }
    }
}

/// Index of the latest entry stored under (bucket, key), or `None` when the
/// key is absent; the entry found carries the denoted map's value.
fn find_entry<V: View>(s: &Vec<MemoryKeyValueEntry<V>>, bucket: &str, key: &str) -> (r: Option<
    usize,
>)
    ensures
        match r {
            Some(i) => {
                let k = (bucket@, key@);
                &&& i < s@.len()
                &&& entry_key(s@[i as int]) == k
                &&& entries_map(s@).contains_key(k)
                &&& entries_map(s@)[k] == s@[i as int].value@
            },
            None => !entries_map(s@).contains_key((bucket@, key@)),
        },
{
    let ghost k = (bucket@, key@);
    let bucket_string = String::from_str(bucket);
    let key_string = String::from_str(key);
    let mut i: usize = s.len();
    proof {
        assert(s@.take(i as int) =~= s@);
    }
    while i > 0
        invariant
            i <= s@.len(),
            k == (bucket@, key@),
            bucket_string@ == bucket@,
            key_string@ == key@,
            entries_map(s@).contains_key(k) == entries_map(s@.take(i as int)).contains_key(k),
            entries_map(s@).contains_key(k) ==> entries_map(s@.take(i as int))[k] == entries_map(
                s@,
            )[k],
        decreases i,
    {
        i = i - 1;
        proof {
            Seq::lemma_take_succ_push(s@, i as int);
            lemma_entries_map_push(s@.take(i as int), s@[i as int]);
        }
        let e = &s[i];
        if e.bucket == bucket_string && e.key == key_string {
            return Some(i);
        }
    }
    proof {
        assert(s@.take(0) =~= Seq::<MemoryKeyValueEntry<V>>::empty());
        lemma_entries_map_contains(s@.take(0), k);
    }
    None
}

/// A fresh vector holding the same bytes.
pub fn copy_bytes(data: &Vec<u8>) -> (r: Vec<u8>)
    ensures
        r@ == data@,
{
    let mut r: Vec<u8> = Vec::new();
    let mut i: usize = 0;
    while i < data.len()
        invariant
            i <= data@.len(),
            r@ == data@.take(i as int),
        decreases data@.len() - i,
    {
        r.push(data[i]);
        proof {
            assert(data@.take(i + 1) =~= data@.take(i as int).push(data@[i as int]));
        }
        i = i + 1;
    }
    proof {
        assert(data@.take(data@.len() as int) =~= data@);
    }
    r
}

/// A fresh byte-value entry with the same key pair and the same bytes.
fn clone_value_entry(e: &MemoryKeyValueEntry<Vec<u8>>) -> (r: MemoryKeyValueEntry<Vec<u8>>)
    ensures
        entry_key(r) == entry_key(*e),
        r.value@ == e.value@,
{
    MemoryKeyValueEntry {
        bucket: e.bucket.clone(),
        key: e.key.clone(),
        value: copy_bytes(&e.value),
    }
}

/// Map-backed in-memory key-value provider, holding atomic counters and
/// eventually-consistent byte values as logs of entries.
pub struct MemoryKeyValue {
    /// Counter entries; a later entry overrides an earlier one.
    pub counters: Vec<MemoryKeyValueEntry<u64>>,
    /// Byte-value entries; a later entry overrides an earlier one.
    pub values: Vec<MemoryKeyValueEntry<Vec<u8>>>,
}

impl MemoryKeyValue {
    /// An empty store.
    pub fn new() -> (r: MemoryKeyValue)
        ensures
            r.counters() == Map::<(Seq<char>, Seq<char>), u64>::empty(),
            r.entries() == Map::<(Seq<char>, Seq<char>), Seq<u8>>::empty(),
    {
        MemoryKeyValue { counters: Vec::new(), values: Vec::new() }
    }
}

impl KeyValueAtomic for MemoryKeyValue {
    open spec fn counters(&self) -> Map<(Seq<char>, Seq<char>), u64> {
        entries_map(self.counters@)
    }

    fn increment(&mut self, bucket: &str, key: String, delta: u64) -> (r: Result<
        u64,
        CapabilityError,
    >)
        ensures
            r is Ok,
    {
        let prev = match find_entry(&self.counters, bucket, key.as_str()) {
            Some(i) => self.counters[i].value,
            None => 0,
        };
        let added = prev.wrapping_add(delta);
        let entry = MemoryKeyValueEntry { bucket: String::from_str(bucket), key, value: added };
        proof {
            lemma_entries_map_push(self.counters@, entry);
        }
        self.counters.push(entry);
        Ok(added)
    }

    fn compare_and_swap(&mut self, bucket: &str, key: String, old_value: u64, new_value: u64) -> (r:
        Result<bool, CapabilityError>)
        ensures
            r is Ok,
    {
        let matched = match find_entry(&self.counters, bucket, key.as_str()) {
            Some(i) => self.counters[i].value == old_value,
            None => false,
        };
        if matched {
            let entry = MemoryKeyValueEntry {
                bucket: String::from_str(bucket),
                key,
                value: new_value,
            };
            proof {
                lemma_entries_map_push(self.counters@, entry);
            }
            self.counters.push(entry);
            Ok(true)
        } else {
            Ok(false)
        }
    }
}

impl KeyValueEventual for MemoryKeyValue {
    open spec fn entries(&self) -> Map<(Seq<char>, Seq<char>), Seq<u8>> {
        entries_map(self.values@)
    }

    fn get(&self, bucket: &str, key: String) -> (r: Result<
        Option<(Vec<u8>, u64)>,
        CapabilityError,
    >)
        ensures
            r is Ok,
    {
        match find_entry(&self.values, bucket, key.as_str()) {
            Some(i) => {
                let data = copy_bytes(&self.values[i].value);
                let len = data.len() as u64;
                Ok(Some((data, len)))
            },
            None => Ok(None),
        }
    }

    fn set(&mut self, bucket: &str, key: String, value: Vec<u8>) -> (r: Result<
        (),
        CapabilityError,
    >)
        ensures
            r is Ok,
    {
        let entry = MemoryKeyValueEntry { bucket: String::from_str(bucket), key, value };
        proof {
            lemma_entries_map_push(self.values@, entry);
        }
        self.values.push(entry);
        Ok(())
    }

    fn delete(&mut self, bucket: &str, key: String) -> (r: Result<(), CapabilityError>)
        ensures
            r is Ok,
    {
        let ghost k = (bucket@, key@);
        let bucket_string = String::from_str(bucket);
        let mut kept: Vec<MemoryKeyValueEntry<Vec<u8>>> = Vec::new();
        let mut i: usize = 0;
        proof {
            assert(self.values@.take(0) =~= Seq::<MemoryKeyValueEntry<Vec<u8>>>::empty());
        }
        while i < self.values.len()
            invariant
                i <= self.values@.len(),
                bucket_string@ == bucket@,
                key@ == k.1,
                bucket@ == k.0,
                entries_map(kept@) == entries_map(self.values@.take(i as int)).remove(k),
            decreases self.values@.len() - i,
        {
            proof {
                Seq::lemma_take_succ_push(self.values@, i as int);
                lemma_entries_map_push(self.values@.take(i as int), self.values@[i as int]);
            }
            let e = &self.values[i];
            if !(e.bucket == bucket_string && e.key == key) {
                let fresh = clone_value_entry(e);
                proof {
                    lemma_entries_map_push(kept@, fresh);
                    assert(entries_map(self.values@.take(i as int)).insert(
                        entry_key(self.values@[i as int]),
                        self.values@[i as int].value@,
                    ).remove(k) =~= entries_map(self.values@.take(i as int)).remove(k).insert(
                        entry_key(self.values@[i as int]),
                        self.values@[i as int].value@,
                    ));
                }
                kept.push(fresh);
            } else {
                proof {
                    assert(entries_map(self.values@.take(i as int)).insert(
                        k,
                        self.values@[i as int].value@,
                    ).remove(k) =~= entries_map(self.values@.take(i as int)).remove(k));
                }
            }
            i = i + 1;
        }
        proof {
            assert(self.values@.take(self.values@.len() as int) =~= self.values@);
        }
        self.values = kept;
        Ok(())
    }

    fn has_entry(&self, bucket: &str, key: String) -> (r: Result<bool, CapabilityError>)
        ensures
            r is Ok,
    {
        Ok(find_entry(&self.values, bucket, key.as_str()).is_some())
    }
}

/// One container of an in-memory blobstore.
pub struct MemoryBlobstoreContainer {
    /// The container's name.
    pub name: String,
    /// Creation time, in unsigned seconds since the epoch.
    pub created_at: u64,
}

/// One object of an in-memory blobstore.
pub struct MemoryBlobstoreObject {
    /// The container holding the object.
    pub container: String,
    /// The object's name.
    pub name: String,
    /// The object's contents.
    pub data: Vec<u8>,
    /// Creation time, in unsigned seconds since the epoch.
    pub created_at: u64,
}

/// The (container, name) pair an object is stored under.
pub open spec fn object_key(e: MemoryBlobstoreObject) -> (Seq<char>, Seq<char>) {
    (e.container@, e.name@)
}

/// The model of one stored object entry.
pub open spec fn object_model(e: MemoryBlobstoreObject) -> ObjectModel {
    ObjectModel { data: e.data@, created_at: e.created_at }
}

/// The container map a log of container entries denotes: a later entry for
/// a name overrides an earlier one.
pub open spec fn containers_map(s: Seq<MemoryBlobstoreContainer>) -> Map<Seq<char>, u64>
    decreases s.len(),
{
    if s.len() == 0 {
        Map::empty()
    } else {
        containers_map(s.drop_last()).insert(s.last().name@, s.last().created_at)
    }
}

/// The object map a log of object entries denotes: a later entry for a
/// (container, name) pair overrides an earlier one.
pub open spec fn objects_map(s: Seq<MemoryBlobstoreObject>) -> Map<
    (Seq<char>, Seq<char>),
    ObjectModel,
>
    decreases s.len(),
{
    if s.len() == 0 {
        Map::empty()
    } else {
        objects_map(s.drop_last()).insert(object_key(s.last()), object_model(s.last()))
    }
}

proof fn lemma_containers_map_push(s: Seq<MemoryBlobstoreContainer>, e: MemoryBlobstoreContainer)
    ensures
        containers_map(s.push(e)) == containers_map(s).insert(e.name@, e.created_at),
{
    assert(s.push(e).drop_last() =~= s);
    assert(s.push(e).last() == e);
}

proof fn lemma_objects_map_push(s: Seq<MemoryBlobstoreObject>, e: MemoryBlobstoreObject)
    ensures
        objects_map(s.push(e)) == objects_map(s).insert(object_key(e), object_model(e)),
{
    assert(s.push(e).drop_last() =~= s);
    assert(s.push(e).last() == e);
}

/// The denoted object map has a key exactly when some entry carries it.
proof fn lemma_objects_map_contains(s: Seq<MemoryBlobstoreObject>, k: (Seq<char>, Seq<char>))
    ensures
        objects_map(s).contains_key(k) <==> exists|i: int|
            0 <= i < s.len() && object_key(s[i]) == k,
    decreases s.len(),
{
    if s.len() > 0 {
        lemma_objects_map_contains(s.drop_last(), k);
        if objects_map(s).contains_key(k) {
            if object_key(s.last()) == k {
                assert(object_key(s[s.len() - 1]) == k);
            } else {
                let i = choose|i: int|
                    0 <= i < s.drop_last().len() && object_key(s.drop_last()[i]) == k;
                assert(object_key(s[i]) == k);
            }
        }
        if exists|i: int| 0 <= i < s.len() && object_key(s[i]) == k {
            let i = choose|i: int| 0 <= i < s.len() && object_key(s[i]) == k;
            if i < s.len() - 1 {
                assert(object_key(s.drop_last()[i]) == k);
            }
        }
    }
}

/// Index of the latest container entry with the given name, or `None`.
fn find_container(s: &Vec<MemoryBlobstoreContainer>, name: &str) -> (r: Option<usize>)
    ensures
        match r {
            Some(i) => {
                &&& i < s@.len()
                &&& s@[i as int].name@ == name@
                &&& containers_map(s@).contains_key(name@)
                &&& containers_map(s@)[name@] == s@[i as int].created_at
            },
            None => !containers_map(s@).contains_key(name@),
        },
{
    let name_string = String::from_str(name);
    let mut i: usize = s.len();
    proof {
        assert(s@.take(i as int) =~= s@);
    }
    while i > 0
        invariant
            i <= s@.len(),
            name_string@ == name@,
            containers_map(s@).contains_key(name@) == containers_map(
                s@.take(i as int),
            ).contains_key(name@),
            containers_map(s@).contains_key(name@) ==> containers_map(s@.take(i as int))[name@]
                == containers_map(s@)[name@],
        decreases i,
    {
        i = i - 1;
        proof {
            Seq::lemma_take_succ_push(s@, i as int);
            lemma_containers_map_push(s@.take(i as int), s@[i as int]);
        }
        let e = &s[i];
        if e.name == name_string {
            return Some(i);
        }
    }
    proof {
        assert(s@.take(0) =~= Seq::<MemoryBlobstoreContainer>::empty());
    }
    None
}

/// Index of the latest object entry stored under (container, name), or
/// `None`; the entry found carries the denoted map's object.
fn find_object(s: &Vec<MemoryBlobstoreObject>, container: &str, name: &str) -> (r: Option<usize>)
    ensures
        match r {
            Some(i) => {
                let k = (container@, name@);
                &&& i < s@.len()
                &&& object_key(s@[i as int]) == k
                &&& objects_map(s@).contains_key(k)
                &&& objects_map(s@)[k] == object_model(s@[i as int])
            },
            None => !objects_map(s@).contains_key((container@, name@)),
        },
{
    let ghost k = (container@, name@);
    let container_string = String::from_str(container);
    let name_string = String::from_str(name);
    let mut i: usize = s.len();
    proof {
        assert(s@.take(i as int) =~= s@);
    }
    while i > 0
        invariant
            i <= s@.len(),
            k == (container@, name@),
            container_string@ == container@,
            name_string@ == name@,
            objects_map(s@).contains_key(k) == objects_map(s@.take(i as int)).contains_key(k),
            objects_map(s@).contains_key(k) ==> objects_map(s@.take(i as int))[k] == objects_map(
                s@,
            )[k],
        decreases i,
    {
        i = i - 1;
        proof {
            Seq::lemma_take_succ_push(s@, i as int);
            lemma_objects_map_push(s@.take(i as int), s@[i as int]);
        }
        let e = &s[i];
        if e.container == container_string && e.name == name_string {
            return Some(i);
        }
    }
    proof {
        assert(s@.take(0) =~= Seq::<MemoryBlobstoreObject>::empty());
        lemma_objects_map_contains(s@.take(0), k);
    }
    None
}

/// The bytes of the inclusive range `[start, end]` of `data`, clamped to
/// its length.
fn slice_range(data: &Vec<u8>, start: u64, end: u64) -> (r: Vec<u8>)
    ensures
        r@ == ranged_bytes(data@, start, end),
{
    let len = data.len();
    if start > end || start >= len as u64 {
        return Vec::new();
    }
    let first: usize = start as usize;
    let end_excl: usize = if end >= len as u64 - 1 {
        len
    } else {
        (end + 1) as usize
    };
    let mut r: Vec<u8> = Vec::new();
    let mut j: usize = first;
    while j < end_excl
        invariant
            first <= j <= end_excl <= data@.len(),
            r@ == data@.subrange(first as int, j as int),
        decreases end_excl - j,
    {
        r.push(data[j]);
        proof {
            assert(data@.subrange(first as int, j + 1) =~= data@.subrange(
                first as int,
                j as int,
            ).push(data@[j as int]));
        }
        j = j + 1;
    }
    r
}

/// Whether the view of some string in `names` equals `s`'s view.
fn contains_string(names: &Vec<String>, s: &String) -> (r: bool)
    ensures
        r == string_views(names@).contains(s@),
{
    let mut i: usize = 0;
    while i < names.len()
        invariant
            i <= names@.len(),
            forall|j: int| 0 <= j < i ==> names@[j]@ != s@,
        decreases names@.len() - i,
    {
        if names[i] == *s {
            assert(string_views(names@)[i as int] == s@);
            return true;
        }
        i = i + 1;
    }
    assert forall|j: int| 0 <= j < string_views(names@).len() implies string_views(names@)[j]
        != s@ by {
        assert(names@[j]@ != s@);
    }
    false
}

/// A fresh object entry with the same key pair and the same model.
fn clone_object_entry(e: &MemoryBlobstoreObject) -> (r: MemoryBlobstoreObject)
    ensures
        object_key(r) == object_key(*e),
        object_model(r) == object_model(*e),
{
    MemoryBlobstoreObject {
        container: e.container.clone(),
        name: e.name.clone(),
        data: copy_bytes(&e.data),
        created_at: e.created_at,
    }
}

/// Map-backed in-memory blobstore provider: containers and objects held as
/// logs of entries in which a later entry overrides an earlier one.
pub struct MemoryBlobstore {
    /// Container entries; a later entry for a name overrides an earlier one.
    pub containers: Vec<MemoryBlobstoreContainer>,
    /// Object entries; a later entry for a pair overrides an earlier one.
    pub objects: Vec<MemoryBlobstoreObject>,
}

impl MemoryBlobstore {
    /// An empty store.
    pub fn new() -> (r: MemoryBlobstore)
        ensures
            r.blob_view().containers == Map::<Seq<char>, u64>::empty(),
            r.blob_view().objects == Map::<(Seq<char>, Seq<char>), ObjectModel>::empty(),
    {
        MemoryBlobstore { containers: Vec::new(), objects: Vec::new() }
    }
}

impl Blobstore for MemoryBlobstore {
    open spec fn blob_view(&self) -> BlobModel {
        BlobModel {
            containers: containers_map(self.containers@),
            objects: objects_map(self.objects@),
        }
    }

    fn create_container(&mut self, name: &str) -> (r: Result<(), CapabilityError>)
        ensures
            r is Ok,
    {
        if find_container(&self.containers, name).is_some() {
            return Ok(());
        }
        let entry = MemoryBlobstoreContainer { name: String::from_str(name), created_at: 0 };
        proof {
            lemma_containers_map_push(self.containers@, entry);
            assert(containers_map(self.containers@).insert(name@, 0u64).remove(name@)
                =~= containers_map(self.containers@).remove(name@));
        }
        self.containers.push(entry);
        Ok(())
    }

    fn container_exists(&self, name: &str) -> (r: Result<bool, CapabilityError>)
        ensures
            r is Ok,
    {
        Ok(find_container(&self.containers, name).is_some())
    }

    fn delete_container(&mut self, name: &str) -> (r: Result<(), CapabilityError>)
        ensures
            r is Ok,
    {
        let ghost c = name@;
        let name_string = String::from_str(name);
        let mut kept: Vec<MemoryBlobstoreContainer> = Vec::new();
        let mut i: usize = 0;
        proof {
            assert(self.containers@.take(0) =~= Seq::<MemoryBlobstoreContainer>::empty());
        }
        while i < self.containers.len()
            invariant
                i <= self.containers@.len(),
                c == name@,
                name_string@ == name@,
                containers_map(kept@) == containers_map(self.containers@.take(i as int)).remove(c),
            decreases self.containers@.len() - i,
        {
            proof {
                Seq::lemma_take_succ_push(self.containers@, i as int);
                lemma_containers_map_push(
                    self.containers@.take(i as int),
                    self.containers@[i as int],
                );
            }
            let e = &self.containers[i];
            if !(e.name == name_string) {
                let fresh = MemoryBlobstoreContainer {
                    name: e.name.clone(),
                    created_at: e.created_at,
                };
                proof {
                    lemma_containers_map_push(kept@, fresh);
                    assert(containers_map(self.containers@.take(i as int)).insert(
                        e.name@,
                        e.created_at,
                    ).remove(c) =~= containers_map(self.containers@.take(i as int)).remove(c).insert(
                        e.name@,
                        e.created_at,
                    ));
                }
                kept.push(fresh);
            } else {
                proof {
                    assert(containers_map(self.containers@.take(i as int)).insert(
                        c,
                        e.created_at,
                    ).remove(c) =~= containers_map(self.containers@.take(i as int)).remove(c));
                }
            }
            i = i + 1;
        }
        proof {
            assert(self.containers@.take(self.containers@.len() as int) =~= self.containers@);
        }
        self.containers = kept;
        let mut kept_objects: Vec<MemoryBlobstoreObject> = Vec::new();
        let mut j: usize = 0;
        proof {
            assert(self.objects@.take(0) =~= Seq::<MemoryBlobstoreObject>::empty());
            assert(objects_map(kept_objects@) =~= drop_container_objects(
                objects_map(self.objects@.take(0)),
                c,
            ));
        }
        while j < self.objects.len()
            invariant
                j <= self.objects@.len(),
                c == name@,
                name_string@ == name@,
                objects_map(kept_objects@) == drop_container_objects(
                    objects_map(self.objects@.take(j as int)),
                    c,
                ),
            decreases self.objects@.len() - j,
        {
            proof {
                Seq::lemma_take_succ_push(self.objects@, j as int);
                lemma_objects_map_push(self.objects@.take(j as int), self.objects@[j as int]);
            }
            let e = &self.objects[j];
            if !(e.container == name_string) {
                let fresh = clone_object_entry(e);
                proof {
                    lemma_objects_map_push(kept_objects@, fresh);
                    assert(drop_container_objects(
                        objects_map(self.objects@.take(j as int)).insert(
                            object_key(self.objects@[j as int]),
                            object_model(self.objects@[j as int]),
                        ),
                        c,
                    ) =~= drop_container_objects(
                        objects_map(self.objects@.take(j as int)),
                        c,
                    ).insert(
                        object_key(self.objects@[j as int]),
                        object_model(self.objects@[j as int]),
                    ));
                }
                kept_objects.push(fresh);
            } else {
                proof {
                    assert(drop_container_objects(
                        objects_map(self.objects@.take(j as int)).insert(
                            object_key(self.objects@[j as int]),
                            object_model(self.objects@[j as int]),
                        ),
                        c,
                    ) =~= drop_container_objects(objects_map(self.objects@.take(j as int)), c));
                }
            }
            j = j + 1;
        }
        proof {
            assert(self.objects@.take(self.objects@.len() as int) =~= self.objects@);
        }
        self.objects = kept_objects;
        Ok(())
    }

    fn container_info(&self, name: &str) -> (r: Result<ContainerMetadata, CapabilityError>)
        ensures
            r is Ok <==> self.blob_view().containers.contains_key(name@),
    {
        match find_container(&self.containers, name) {
            Some(i) => Ok(
                ContainerMetadata {
                    name: String::from_str(name),
                    created_at: self.containers[i].created_at,
                },
            ),
            None => Err(CapabilityError::NotFound(String::from_str("Container not found"))),
        }
    }

    fn get_data(&self, container: &str, name: String, start: u64, end: u64) -> (r: Result<
        (Vec<u8>, u64),
        CapabilityError,
    >)
        ensures
            r is Ok <==> (self.blob_view().containers.contains_key(container@)
                || self.blob_view().objects.contains_key((container@, name@))),
    {
        match find_object(&self.objects, container, name.as_str()) {
            Some(i) => {
                let data = slice_range(&self.objects[i].data, start, end);
                let len = data.len() as u64;
                Ok((data, len))
            },
            None => {
                if find_container(&self.containers, container).is_some() {
                    Ok((Vec::new(), 0))
                } else {
                    Err(CapabilityError::NotFound(String::from_str("Container not found")))
                }
            },
        }
    }

    fn has_object(&self, container: &str, name: String) -> (r: Result<bool, CapabilityError>)
        ensures
            r is Ok <==> self.blob_view().containers.contains_key(container@),
    {
        let present = find_object(&self.objects, container, name.as_str()).is_some();
        if find_container(&self.containers, container).is_some() {
            Ok(present)
        } else {
            Err(CapabilityError::NotFound(String::from_str("Container not found")))
        }
    }

    fn write_data(&mut self, container: &str, name: String, value: Vec<u8>) -> (r: Result<
        (),
        CapabilityError,
    >)
        ensures
            r is Ok <==> old(self).blob_view().containers.contains_key(container@),
    {
        if find_container(&self.containers, container).is_none() {
            return Err(CapabilityError::NotFound(String::from_str("Container not found")));
        }
        let entry = MemoryBlobstoreObject {
            container: String::from_str(container),
            name,
            data: value,
            created_at: 0,
        };
        proof {
            lemma_objects_map_push(self.objects@, entry);
            assert(objects_map(self.objects@).insert(object_key(entry), object_model(entry)).remove(
                object_key(entry),
            ) =~= objects_map(self.objects@).remove(object_key(entry)));
        }
        self.objects.push(entry);
        Ok(())
    }

    fn delete_objects(&mut self, container: &str, names: Vec<String>) -> (r: Result<
        (),
        CapabilityError,
    >)
        ensures
            r is Ok <==> old(self).blob_view().containers.contains_key(container@),
    {
        if find_container(&self.containers, container).is_none() {
            return Err(CapabilityError::NotFound(String::from_str("Container not found")));
        }
        let ghost c = container@;
        let ghost listed = string_views(names@);
        let container_string = String::from_str(container);
        let mut kept: Vec<MemoryBlobstoreObject> = Vec::new();
        let mut i: usize = 0;
        proof {
            assert(self.objects@.take(0) =~= Seq::<MemoryBlobstoreObject>::empty());
            assert(objects_map(kept@) =~= remove_names(
                objects_map(self.objects@.take(0)),
                c,
                listed,
            ));
        }
        while i < self.objects.len()
            invariant
                i <= self.objects@.len(),
                c == container@,
                listed == string_views(names@),
                container_string@ == container@,
                objects_map(kept@) == remove_names(
                    objects_map(self.objects@.take(i as int)),
                    c,
                    listed,
                ),
            decreases self.objects@.len() - i,
        {
            proof {
                Seq::lemma_take_succ_push(self.objects@, i as int);
                lemma_objects_map_push(self.objects@.take(i as int), self.objects@[i as int]);
            }
            let e = &self.objects[i];
            let drop_entry = e.container == container_string && contains_string(&names, &e.name);
            if !drop_entry {
                let fresh = clone_object_entry(e);
                proof {
                    lemma_objects_map_push(kept@, fresh);
                    assert(remove_names(
                        objects_map(self.objects@.take(i as int)).insert(
                            object_key(self.objects@[i as int]),
                            object_model(self.objects@[i as int]),
                        ),
                        c,
                        listed,
                    ) =~= remove_names(
                        objects_map(self.objects@.take(i as int)),
                        c,
                        listed,
                    ).insert(
                        object_key(self.objects@[i as int]),
                        object_model(self.objects@[i as int]),
                    ));
                }
                kept.push(fresh);
            } else {
                proof {
                    assert(remove_names(
                        objects_map(self.objects@.take(i as int)).insert(
                            object_key(self.objects@[i as int]),
                            object_model(self.objects@[i as int]),
                        ),
                        c,
                        listed,
                    ) =~= remove_names(objects_map(self.objects@.take(i as int)), c, listed));
                }
            }
            i = i + 1;
        }
        proof {
            assert(self.objects@.take(self.objects@.len() as int) =~= self.objects@);
        }
        self.objects = kept;
        Ok(())
    }

    fn list_objects(&self, container: &str) -> (r: Result<Vec<String>, CapabilityError>)
        ensures
            r is Ok <==> self.blob_view().containers.contains_key(container@),
    {
        if find_container(&self.containers, container).is_none() {
            return Err(CapabilityError::NotFound(String::from_str("Container not found")));
        }
        let ghost c = container@;
        let container_string = String::from_str(container);
        let mut result: Vec<String> = Vec::new();
        let mut i: usize = 0;
        while i < self.objects.len()
            invariant
                i <= self.objects@.len(),
                c == container@,
                container_string@ == container@,
                string_views(result@).no_duplicates(),
                forall|n: Seq<char>| #[trigger]
                    string_views(result@).contains(n) <==> exists|j: int|
                        0 <= j < i && object_key(self.objects@[j]) == (c, n),
            decreases self.objects@.len() - i,
        {
            let ghost result0 = result@;
            let e = &self.objects[i];
            let mut grew = false;
            if e.container == container_string {
                if !contains_string(&result, &e.name) {
                    let fresh = e.name.clone();
                    proof {
                        assert(string_views(result@.push(fresh)) =~= string_views(result@).push(
                            fresh@,
                        ));
                    }
                    result.push(fresh);
                    grew = true;
                }
            }
            proof {
                let views0 = string_views(result0);
                let views1 = string_views(result@);
                let entry = self.objects@[i as int];
                if grew {
                    assert(views1 =~= views0.push(entry.name@));
                    assert(views1.no_duplicates()) by {
                        assert forall|a: int, b: int| 0 <= a < b < views1.len() implies views1[a]
                            != views1[b] by {
                            if b == views1.len() - 1 {
                                assert(!views0.contains(entry.name@));
                                assert(views0[a] == views1[a]);
                            }
                        }
                    }
                }
                assert forall|n: Seq<char>| #[trigger] views1.contains(n) implies exists|j: int|
                    0 <= j < i + 1 && object_key(self.objects@[j]) == (c, n) by {
                    let ix = choose|ix: int| 0 <= ix < views1.len() && views1[ix] == n;
                    if ix < views0.len() {
                        assert(views0[ix] == n);
                        assert(views0.contains(n));
                    } else {
                        assert(n == entry.name@);
                        assert(object_key(self.objects@[i as int]) == (c, n));
                    }
                }
                assert forall|n: Seq<char>|
                    exists|j: int| 0 <= j < i + 1 && object_key(self.objects@[j]) == (c, n)
                    implies #[trigger] views1.contains(n) by {
                    let j = choose|j: int| 0 <= j < i + 1 && object_key(self.objects@[j]) == (c, n);
                    if j < i {
                        assert(views0.contains(n));
                        let ix = choose|ix: int| 0 <= ix < views0.len() && views0[ix] == n;
                        assert(views1[ix] == n);
                    } else {
                        assert(entry.container@ == c && entry.name@ == n);
                        if grew {
                            assert(views1.last() == n);
                        } else {
                            assert(views0.contains(n));
                            let ix = choose|ix: int| 0 <= ix < views0.len() && views0[ix] == n;
                            assert(views1[ix] == n);
                        }
                    }
                }
            }
            i = i + 1;
        }
        proof {
            lemma_objects_map_contains_all(self.objects@, c);
        }
        Ok(result)
    }

    fn object_info(&self, container: &str, name: String) -> (r: Result<
        ObjectMetadata,
        CapabilityError,
    >)
        ensures
            r is Ok <==> self.blob_view().objects.contains_key((container@, name@)),
    {
        match find_object(&self.objects, container, name.as_str()) {
            Some(i) => {
                let obj = &self.objects[i];
                let size = obj.data.len() as u64;
                Ok(
                    ObjectMetadata {
                        name,
                        container: String::from_str(container),
                        size,
                        created_at: obj.created_at,
                    },
                )
            },
            None => Err(CapabilityError::NotFound(String::from_str("Object not found"))),
        }
    }
}

/// For every name, the denoted object map of `s` has (c, name) exactly when
/// some entry of `s` carries that pair.
proof fn lemma_objects_map_contains_all(s: Seq<MemoryBlobstoreObject>, c: Seq<char>)
    ensures
        forall|n: Seq<char>| #[trigger]
            objects_map(s).contains_key((c, n)) <==> exists|j: int|
                0 <= j < s.len() && object_key(s[j]) == (c, n),
{
    assert forall|n: Seq<char>| #[trigger]
        objects_map(s).contains_key((c, n)) <==> exists|j: int|
            0 <= j < s.len() && object_key(s[j]) == (c, n) by {
        lemma_objects_map_contains(s, (c, n));
    }
}

} // verus!
