//! Blob-storage capability: model, metadata types and provider contract.
//!
//! A blobstore is modelled as a map from container names to creation times
//! together with a map from (container, object) pairs to object contents.
//! The provider contract normalizes backend-specific behaviour: a read of a
//! missing object in an existing container yields an empty result rather
//! than an error, so "missing" and "empty" are indistinguishable to the
//! guest, while metadata lookups fail on absence.

use vstd::prelude::*;

use crate::errors::{is_provider_fault, CapabilityError};

verus! {

/// Model of one stored object: its bytes and its creation time in unsigned
/// seconds since the epoch.
pub struct ObjectModel {
    /// The object's contents.
    pub data: Seq<u8>,
    /// Creation time, in unsigned seconds since the epoch.
    pub created_at: u64,
}

/// Model of a blobstore: the containers that exist, each with its creation
/// time, and the objects they hold, keyed by (container name, object name).
pub struct BlobModel {
    /// Container name to creation time.
    pub containers: Map<Seq<char>, u64>,
    /// (container name, object name) to object contents.
    pub objects: Map<(Seq<char>, Seq<char>), ObjectModel>,
}

/// The object map without the entries of container `c` whose names occur in
/// `names`: the effect of a batch delete on the model.
pub open spec fn remove_names(
    objects: Map<(Seq<char>, Seq<char>), ObjectModel>,
    c: Seq<char>,
    names: Seq<Seq<char>>,
) -> Map<(Seq<char>, Seq<char>), ObjectModel> {
    Map::new(
        |k: (Seq<char>, Seq<char>)| objects.contains_key(k) && !(k.0 == c && names.contains(k.1)),
        |k: (Seq<char>, Seq<char>)| objects[k],
    )
}

/// The object map without any entry of container `c`: the effect of clearing
/// the container on the model.
pub open spec fn drop_container_objects(
    objects: Map<(Seq<char>, Seq<char>), ObjectModel>,
    c: Seq<char>,
) -> Map<(Seq<char>, Seq<char>), ObjectModel> {
    Map::new(
        |k: (Seq<char>, Seq<char>)| objects.contains_key(k) && k.0 != c,
        |k: (Seq<char>, Seq<char>)| objects[k],
    )
}

/// The bytes an inclusive-range read of `[start, end]` yields from `data`:
/// the in-bounds part of the range, empty when the range starts at or past
/// the end of the data.
pub open spec fn ranged_bytes(data: Seq<u8>, start: u64, end: u64) -> Seq<u8> {
    if start > end || start >= data.len() {
        Seq::empty()
    } else if end + 1 <= data.len() {
        data.subrange(start as int, end as int + 1)
    } else {
        data.subrange(start as int, data.len() as int)
    }
}

/// The character sequences of a sequence of strings.
pub open spec fn string_views(v: Seq<String>) -> Seq<Seq<char>> {
    v.map_values(|s: String| s@)
}

/// Container metadata, re-derived from the backend on every call.
#[derive(Debug)]
pub struct ContainerMetadata {
    /// The container's name.
    pub name: String,
    /// Creation time, in unsigned seconds since the epoch.
    pub created_at: u64,
}

/// Object metadata, re-derived from the backend on every call.
#[derive(Debug)]
pub struct ObjectMetadata {
    /// The object's name.
    pub name: String,
    /// The container holding the object.
    pub container: String,
    /// The object's size in bytes.
    pub size: u64,
    /// Creation time, in unsigned seconds since the epoch.
    pub created_at: u64,
}

/// What a successful `create_container` guarantees: the container exists
/// afterwards, creating an existing container changes nothing, and no other
/// container or object is touched.
pub open spec fn create_container_post(
    pre: BlobModel,
    post: BlobModel,
    name: Seq<char>,
    r: Result<(), CapabilityError>,
) -> bool {
    &&& (r is Ok ==> {
        &&& post.containers.contains_key(name)
        &&& post.containers.remove(name) == pre.containers.remove(name)
        &&& (pre.containers.contains_key(name) ==> post == pre)
        &&& post.objects == pre.objects
    })
    &&& (r matches Err(e) ==> is_provider_fault(e) || e is Malformed)
}

/// What `container_exists` guarantees: a boolean answer reflecting the
/// model; absence is never an error, only a backend fault is.
pub open spec fn container_exists_post(
    m: BlobModel,
    name: Seq<char>,
    r: Result<bool, CapabilityError>,
) -> bool {
    &&& (r matches Ok(b) ==> b == m.containers.contains_key(name))
    &&& (r matches Err(e) ==> is_provider_fault(e))
}

/// What a successful `delete_container` guarantees: the container and its
/// objects are gone, everything else untouched.
pub open spec fn delete_container_post(
    pre: BlobModel,
    post: BlobModel,
    name: Seq<char>,
    r: Result<(), CapabilityError>,
) -> bool {
    &&& (r is Ok ==> {
        &&& post.containers == pre.containers.remove(name)
        &&& post.objects == drop_container_objects(pre.objects, name)
    })
    &&& (r matches Err(e) ==> is_provider_fault(e) || (e is NotFound
        && !pre.containers.contains_key(name)))
}

/// What `container_info` guarantees: metadata of the named container, and
/// failure exactly when it is absent.
pub open spec fn container_info_post(
    m: BlobModel,
    name: Seq<char>,
    r: Result<ContainerMetadata, CapabilityError>,
) -> bool {
    &&& (r matches Ok(meta) ==> m.containers.contains_key(name) && meta.name@ == name
        && meta.created_at == m.containers[name])
    &&& (!m.containers.contains_key(name) ==> r is Err)
    &&& (r matches Err(e) ==> is_provider_fault(e) || (e is NotFound
        && !m.containers.contains_key(name)))
}

/// What `get_data` guarantees: a present object yields exactly the requested
/// inclusive range of its bytes with their length; a missing object in an
/// existing container yields an empty zero-length result, not an error.
pub open spec fn get_data_post(
    m: BlobModel,
    container: Seq<char>,
    name: Seq<char>,
    start: u64,
    end: u64,
    r: Result<(Vec<u8>, u64), CapabilityError>,
) -> bool {
    &&& (m.containers.contains_key(container) && !m.objects.contains_key((container, name)) ==> (
    r matches Ok((d, l)) && d@.len() == 0 && l == 0))
    &&& (m.objects.contains_key((container, name)) ==> (r matches Ok((d, l)) && d@ == ranged_bytes(
        m.objects[(container, name)].data,
        start,
        end,
    ) && l == d@.len()))
    &&& (r matches Err(e) ==> is_provider_fault(e) || (e is NotFound
        && !m.containers.contains_key(container)))
}

/// What `has_object` guarantees: in an existing container, a boolean answer
/// reflecting the model; a missing object is `false`, not an error.
pub open spec fn has_object_post(
    m: BlobModel,
    container: Seq<char>,
    name: Seq<char>,
    r: Result<bool, CapabilityError>,
) -> bool {
    &&& (m.containers.contains_key(container) ==> (r matches Ok(b) && b == m.objects.contains_key(
        (container, name),
    )))
    &&& (r matches Err(e) ==> is_provider_fault(e) || (e is NotFound
        && !m.containers.contains_key(container)))
}

/// What a successful `write_data` guarantees: the object holds exactly the
/// written bytes, everything else untouched.
pub open spec fn write_data_post(
    pre: BlobModel,
    post: BlobModel,
    container: Seq<char>,
    name: Seq<char>,
    value: Seq<u8>,
    r: Result<(), CapabilityError>,
) -> bool {
    &&& (r is Ok ==> {
        &&& post.containers == pre.containers
        &&& post.objects.contains_key((container, name))
        &&& post.objects[(container, name)].data == value
        &&& post.objects.remove((container, name)) == pre.objects.remove((container, name))
    })
    &&& (r matches Err(e) ==> is_provider_fault(e) || e is Malformed || (e is NotFound
        && !pre.containers.contains_key(container)))
}

/// What `delete_objects` guarantees: on success exactly the named objects of
/// the container are gone; deleting an absent name is not an error, and no
/// container is ever touched.
pub open spec fn delete_objects_post(
    pre: BlobModel,
    post: BlobModel,
    container: Seq<char>,
    names: Seq<Seq<char>>,
    r: Result<(), CapabilityError>,
) -> bool {
    &&& (r is Ok ==> post.objects == remove_names(pre.objects, container, names))
    &&& post.containers == pre.containers
    &&& (r matches Err(e) ==> is_provider_fault(e) || (e is NotFound
        && !pre.containers.contains_key(container)))
}

/// What `list_objects` guarantees: a duplicate-free snapshot of exactly the
/// names the container holds at call time, and failure when the container
/// is absent.
pub open spec fn list_objects_post(
    m: BlobModel,
    container: Seq<char>,
    r: Result<Vec<String>, CapabilityError>,
) -> bool {
    &&& (r matches Ok(v) ==> {
        &&& m.containers.contains_key(container)
        &&& string_views(v@).no_duplicates()
        &&& forall|n: Seq<char>| #[trigger]
            string_views(v@).contains(n) <==> m.objects.contains_key((container, n))
    })
    &&& (!m.containers.contains_key(container) ==> r is Err)
    &&& (r matches Err(e) ==> is_provider_fault(e) || (e is NotFound
        && !m.containers.contains_key(container)))
}

/// What `object_info` guarantees: metadata of the named object, and failure
/// exactly when it is absent.
pub open spec fn object_info_post(
    m: BlobModel,
    container: Seq<char>,
    name: Seq<char>,
    r: Result<ObjectMetadata, CapabilityError>,
) -> bool {
    &&& (r matches Ok(meta) ==> {
        let obj = m.objects[(container, name)];
        &&& m.objects.contains_key((container, name))
        &&& meta.name@ == name
        &&& meta.container@ == container
        &&& meta.size == obj.data.len()
        &&& meta.created_at == obj.created_at
    })
    &&& (!m.objects.contains_key((container, name)) ==> r is Err)
    &&& (r matches Err(e) ==> is_provider_fault(e) || (e is NotFound
        && !m.objects.contains_key((container, name))))
}

/// What a successful `clear_container` guarantees: the objects the container
/// held at snapshot time are gone and no container is touched.
pub open spec fn clear_container_post(
    pre: BlobModel,
    post: BlobModel,
    container: Seq<char>,
    r: Result<(), CapabilityError>,
) -> bool {
    &&& post.containers == pre.containers
    &&& (r is Ok ==> post.objects =~= drop_container_objects(pre.objects, container))
    &&& (r matches Err(e) ==> is_provider_fault(e) || (e is NotFound
        && !pre.containers.contains_key(container)))
}

/// Contract of a blobstore provider over the [`BlobModel`] view.
///
/// Any backend qualifies if it satisfies the stated error and edge-case
/// policy; reads of a missing object in an existing container are
/// normalized to empty results, never errors.
pub trait Blobstore: Sized {
    /// The provider's state as a blobstore model.
    spec fn blob_view(&self) -> BlobModel;

    /// Create container `name`. On success the container exists; creating an
    /// existing container leaves the store unchanged.
    fn create_container(&mut self, name: &str) -> (r: Result<(), CapabilityError>)
        ensures
            create_container_post(old(self).blob_view(), final(self).blob_view(), name@, r),
    ;

    /// Whether container `name` exists. Never errors on absence, only on a
    /// backend fault.
    fn container_exists(&self, name: &str) -> (r: Result<bool, CapabilityError>)
        ensures
            container_exists_post(self.blob_view(), name@, r),
    ;

    /// Delete container `name` and the objects it holds.
    fn delete_container(&mut self, name: &str) -> (r: Result<(), CapabilityError>)
        ensures
            delete_container_post(old(self).blob_view(), final(self).blob_view(), name@, r),
    ;

    /// Metadata of container `name`; fails if the container is absent.
    fn container_info(&self, name: &str) -> (r: Result<ContainerMetadata, CapabilityError>)
        ensures
            container_info_post(self.blob_view(), name@, r),
    ;

    /// Read the inclusive byte range `[start, end]` of an object, returning
    /// the bytes and their length. A missing object in an existing container
    /// yields an empty zero-length result, not an error.
    fn get_data(&self, container: &str, name: String, start: u64, end: u64) -> (r: Result<
        (Vec<u8>, u64),
        CapabilityError,
    >)
        ensures
            get_data_post(self.blob_view(), container@, name@, start, end, r),
    ;

    /// Whether the object exists; a missing object in an existing container
    /// yields `false`, not an error.
    fn has_object(&self, container: &str, name: String) -> (r: Result<bool, CapabilityError>)
        ensures
            has_object_post(self.blob_view(), container@, name@, r),
    ;

    /// Store `value` as the object's full contents, replacing any previous
    /// contents; the input is fully consumed before the commit, never
    /// silently truncated.
    fn write_data(&mut self, container: &str, name: String, value: Vec<u8>) -> (r: Result<
        (),
        CapabilityError,
    >)
        ensures
            write_data_post(
                old(self).blob_view(),
                final(self).blob_view(),
                container@,
                name@,
                value@,
                r,
            ),
    ;

    /// Batch-delete the named objects. Fails as a whole only if the batch
    /// cannot be submitted; deleting an absent name is not an error.
    fn delete_objects(&mut self, container: &str, names: Vec<String>) -> (r: Result<
        (),
        CapabilityError,
    >)
        ensures
            delete_objects_post(
                old(self).blob_view(),
                final(self).blob_view(),
                container@,
                string_views(names@),
                r,
            ),
    ;

    /// The names of the objects of `container` at call time: a finite
    /// snapshot without duplicates. Fails if the container is absent.
    fn list_objects(&self, container: &str) -> (r: Result<Vec<String>, CapabilityError>)
        ensures
            list_objects_post(self.blob_view(), container@, r),
    ;

    /// Metadata of an object; fails if the object is absent.
    fn object_info(&self, container: &str, name: String) -> (r: Result<
        ObjectMetadata,
        CapabilityError,
    >)
        ensures
            object_info_post(self.blob_view(), container@, name@, r),
    ;

    /// Clear `container` by listing its objects and batch-deleting that
    /// snapshot. Not atomic: only objects present in the snapshot are
    /// removed; objects created after the snapshot survive.
    fn clear_container(&mut self, container: &str) -> (r: Result<(), CapabilityError>)
        ensures
            clear_container_post(old(self).blob_view(), final(self).blob_view(), container@, r),
    {
        let names = match self.list_objects(container) {
            Ok(names) => names,
            Err(e) => {
                return Err(crate::errors::with_context("failed to list objects", e));
            },
        };
        let r = self.delete_objects(container, names);
        proof {
            if r is Ok {
                lemma_clear_is_list_then_delete(
                    old(self).blob_view().objects,
                    container@,
                    string_views(names@),
                );
            }
        }
        r
    }
}

/// Law: clearing a container equals listing it and then batch-deleting the
/// snapshot — when `names` lists exactly the objects the container holds at
/// call time, deleting them removes the container's objects and nothing
/// else.
pub proof fn lemma_clear_is_list_then_delete(
    objects: Map<(Seq<char>, Seq<char>), ObjectModel>,
    c: Seq<char>,
    names: Seq<Seq<char>>,
)
    requires
        forall|n: Seq<char>| #[trigger] names.contains(n) <==> objects.contains_key((c, n)),
    ensures
        remove_names(objects, c, names) =~= drop_container_objects(objects, c),
{
    assert forall|k: (Seq<char>, Seq<char>)|
        remove_names(objects, c, names).contains_key(k) <==> drop_container_objects(
            objects,
            c,
        ).contains_key(k) by {
        if objects.contains_key(k) && k.0 == c {
            assert(names.contains(k.1) <==> objects.contains_key((c, k.1)));
        }
    }
}

/// Law: after a successful `create_container`, a successful
/// `container_exists` for the same name answers `true`.
pub proof fn lemma_exists_after_create(
    pre: BlobModel,
    post: BlobModel,
    name: Seq<char>,
    r: Result<bool, CapabilityError>,
)
    requires
        create_container_post(pre, post, name, Ok(())),
        container_exists_post(post, name, r),
        r is Ok,
    ensures
        r == Result::<bool, CapabilityError>::Ok(true),
{
}

/// Batch-deleting any snapshot removes only objects whose names occur in the
/// snapshot: an object of the container whose name is not listed — one
/// created after the snapshot was taken — survives the delete.
pub proof fn lemma_delete_preserves_unlisted(
    objects: Map<(Seq<char>, Seq<char>), ObjectModel>,
    c: Seq<char>,
    names: Seq<Seq<char>>,
    k: (Seq<char>, Seq<char>),
)
    requires
        objects.contains_key(k),
        !names.contains(k.1),
    ensures
        remove_names(objects, c, names).contains_key(k),
        remove_names(objects, c, names)[k] == objects[k],
{
}

} // verus!
