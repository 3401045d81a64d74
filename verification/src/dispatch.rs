//! Typed dispatch from a [`Handler`] to its bound providers.
//!
//! Each call looks up the binding for its capability kind; when absent it
//! fails with an `Unconfigured` error naming interface and method and has no
//! other effect, and when present it forwards the arguments verbatim and
//! returns the provider's result unmodified — no retry, no caching, no
//! argument validation beyond the contract's own signature.

use vstd::prelude::*;

use crate::blobstore::{
    clear_container_post, container_exists_post, container_info_post, create_container_post,
    delete_container_post, delete_objects_post, get_data_post, has_object_post, list_objects_post,
    object_info_post, string_views, write_data_post, Blobstore, ContainerMetadata, ObjectMetadata,
};
use crate::errors::CapabilityError;
use crate::handler::{is_unconfigured_for, proxy, unconfigured, Handler};
use crate::http::{HttpRequest, HttpResponse, IncomingHttp, OutgoingHttp, OutgoingHttpRequest};
use crate::keyvalue::{
    compare_and_swap_post, increment_post, kv_delete_post, kv_get_post, kv_set_post, KeyValueAtomic,
    KeyValueEventual,
};
use crate::messaging::{BrokerMessage, Messaging};

verus! {

impl<Bs: Blobstore, Ih, Oh, Ka, Ke, Ms> Handler<Bs, Ih, Oh, Ka, Ke, Ms> {
    /// Route `create-container` to the bound blobstore provider.
    pub fn create_container(&mut self, name: &str) -> (r: Result<(), CapabilityError>)
        ensures
            old(self).blobstore is None ==> *final(self) == *old(self) && (r matches Err(e)
                && is_unconfigured_for(e, "Blobstore"@, "wasi:blobstore/blobstore.create-container"@)),
            old(self).blobstore matches Some(p) ==> ({
                &&& Self::same_but_blobstore(*old(self), *final(self))
                &&& final(self).blobstore matches Some(q) && create_container_post(
                    p.blob_view(),
                    q.blob_view(),
                    name@,
                    r,
                )
            }),
    {
        match &mut self.blobstore {
            Some(p) => p.create_container(name),
            None => Err(unconfigured("Blobstore", "wasi:blobstore/blobstore.create-container")),
        }
    }

    /// Route `container-exists` to the bound blobstore provider.
    pub fn container_exists(&self, name: &str) -> (r: Result<bool, CapabilityError>)
        ensures
            self.blobstore is None ==> (r matches Err(e) && is_unconfigured_for(
                e,
                "Blobstore"@,
                "wasi:blobstore/blobstore.container-exists"@,
            )),
            self.blobstore matches Some(p) ==> container_exists_post(p.blob_view(), name@, r),
    {
        match proxy(&self.blobstore, "Blobstore", "wasi:blobstore/blobstore.container-exists") {
            Ok(p) => p.container_exists(name),
            Err(e) => Err(e),
        }
    }

    /// Route `delete-container` to the bound blobstore provider.
    pub fn delete_container(&mut self, name: &str) -> (r: Result<(), CapabilityError>)
        ensures
            old(self).blobstore is None ==> *final(self) == *old(self) && (r matches Err(e)
                && is_unconfigured_for(e, "Blobstore"@, "wasi:blobstore/blobstore.delete-container"@)),
            old(self).blobstore matches Some(p) ==> ({
                &&& Self::same_but_blobstore(*old(self), *final(self))
                &&& final(self).blobstore matches Some(q) && delete_container_post(
                    p.blob_view(),
                    q.blob_view(),
                    name@,
                    r,
                )
            }),
    {
        match &mut self.blobstore {
            Some(p) => p.delete_container(name),
            None => Err(unconfigured("Blobstore", "wasi:blobstore/blobstore.delete-container")),
        }
    }

    /// Route `container.info` to the bound blobstore provider.
    pub fn container_info(&self, name: &str) -> (r: Result<ContainerMetadata, CapabilityError>)
        ensures
            self.blobstore is None ==> (r matches Err(e) && is_unconfigured_for(
                e,
                "Blobstore"@,
                "wasi:blobstore/container.info"@,
            )),
            self.blobstore matches Some(p) ==> container_info_post(p.blob_view(), name@, r),
    {
        match proxy(&self.blobstore, "Blobstore", "wasi:blobstore/container.info") {
            Ok(p) => p.container_info(name),
            Err(e) => Err(e),
        }
    }

    /// Route `get-data` to the bound blobstore provider.
    pub fn get_data(&self, container: &str, name: String, start: u64, end: u64) -> (r: Result<
        (Vec<u8>, u64),
        CapabilityError,
    >)
        ensures
            self.blobstore is None ==> (r matches Err(e) && is_unconfigured_for(
                e,
                "Blobstore"@,
                "wasi:blobstore/container.get-data"@,
            )),
            self.blobstore matches Some(p) ==> get_data_post(
                p.blob_view(),
                container@,
                name@,
                start,
                end,
                r,
            ),
    {
        match proxy(&self.blobstore, "Blobstore", "wasi:blobstore/container.get-data") {
            Ok(p) => p.get_data(container, name, start, end),
            Err(e) => Err(e),
        }
    }

    /// Route `has-object` to the bound blobstore provider.
    pub fn has_object(&self, container: &str, name: String) -> (r: Result<bool, CapabilityError>)
        ensures
            self.blobstore is None ==> (r matches Err(e) && is_unconfigured_for(
                e,
                "Blobstore"@,
                "wasi:blobstore/container.has-object"@,
            )),
            self.blobstore matches Some(p) ==> has_object_post(p.blob_view(), container@, name@, r),
    {
        match proxy(&self.blobstore, "Blobstore", "wasi:blobstore/container.has-object") {
            Ok(p) => p.has_object(container, name),
            Err(e) => Err(e),
        }
    }

    /// Route `write-data` to the bound blobstore provider.
    pub fn write_data(&mut self, container: &str, name: String, value: Vec<u8>) -> (r: Result<
        (),
        CapabilityError,
    >)
        ensures
            old(self).blobstore is None ==> *final(self) == *old(self) && (r matches Err(e)
                && is_unconfigured_for(e, "Blobstore"@, "wasi:blobstore/container.write-data"@)),
            old(self).blobstore matches Some(p) ==> ({
                &&& Self::same_but_blobstore(*old(self), *final(self))
                &&& final(self).blobstore matches Some(q) && write_data_post(
                    p.blob_view(),
                    q.blob_view(),
                    container@,
                    name@,
                    value@,
                    r,
                )
            }),
    {
        match &mut self.blobstore {
            Some(p) => p.write_data(container, name, value),
            None => Err(unconfigured("Blobstore", "wasi:blobstore/container.write-data")),
        }
    }

    /// Route `delete-objects` to the bound blobstore provider.
    pub fn delete_objects(&mut self, container: &str, names: Vec<String>) -> (r: Result<
        (),
        CapabilityError,
    >)
        ensures
            old(self).blobstore is None ==> *final(self) == *old(self) && (r matches Err(e)
                && is_unconfigured_for(e, "Blobstore"@, "wasi:blobstore/container.delete-objects"@)),
            old(self).blobstore matches Some(p) ==> ({
                &&& Self::same_but_blobstore(*old(self), *final(self))
                &&& final(self).blobstore matches Some(q) && delete_objects_post(
                    p.blob_view(),
                    q.blob_view(),
                    container@,
                    string_views(names@),
                    r,
                )
            }),
    {
        match &mut self.blobstore {
            Some(p) => p.delete_objects(container, names),
            None => Err(unconfigured("Blobstore", "wasi:blobstore/container.delete-objects")),
        }
    }

    /// Route `list-objects` to the bound blobstore provider.
    pub fn list_objects(&self, container: &str) -> (r: Result<Vec<String>, CapabilityError>)
        ensures
            self.blobstore is None ==> (r matches Err(e) && is_unconfigured_for(
                e,
                "Blobstore"@,
                "wasi:blobstore/container.list-objects"@,
            )),
            self.blobstore matches Some(p) ==> list_objects_post(p.blob_view(), container@, r),
    {
        match proxy(&self.blobstore, "Blobstore", "wasi:blobstore/container.list-objects") {
            Ok(p) => p.list_objects(container),
            Err(e) => Err(e),
        }
    }

    /// Route `object-info` to the bound blobstore provider.
    pub fn object_info(&self, container: &str, name: String) -> (r: Result<
        ObjectMetadata,
        CapabilityError,
    >)
        ensures
            self.blobstore is None ==> (r matches Err(e) && is_unconfigured_for(
                e,
                "Blobstore"@,
                "wasi:blobstore/container.object-info"@,
            )),
            self.blobstore matches Some(p) ==> object_info_post(
                p.blob_view(),
                container@,
                name@,
                r,
            ),
    {
        match proxy(&self.blobstore, "Blobstore", "wasi:blobstore/container.object-info") {
            Ok(p) => p.object_info(container, name),
            Err(e) => Err(e),
        }
    }

    /// Route `container.clear` to the bound blobstore provider.
    pub fn clear_container(&mut self, container: &str) -> (r: Result<(), CapabilityError>)
        ensures
            old(self).blobstore is None ==> *final(self) == *old(self) && (r matches Err(e)
                && is_unconfigured_for(e, "Blobstore"@, "wasi:blobstore/container.clear"@)),
            old(self).blobstore matches Some(p) ==> ({
                &&& Self::same_but_blobstore(*old(self), *final(self))
                &&& final(self).blobstore matches Some(q) && clear_container_post(
                    p.blob_view(),
                    q.blob_view(),
                    container@,
                    r,
                )
            }),
    {
        match &mut self.blobstore {
            Some(p) => p.clear_container(container),
            None => Err(unconfigured("Blobstore", "wasi:blobstore/container.clear")),
        }
    }
}

impl<Bs, Ih, Oh, Ka: KeyValueAtomic, Ke, Ms> Handler<Bs, Ih, Oh, Ka, Ke, Ms> {
    /// Route `increment` to the bound atomic key-value provider.
    pub fn increment(&mut self, bucket: &str, key: String, delta: u64) -> (r: Result<
        u64,
        CapabilityError,
    >)
        ensures
            old(self).keyvalue_atomic is None ==> *final(self) == *old(self) && (r matches Err(e)
                && is_unconfigured_for(e, "KeyvalueAtomic"@, "wasi:keyvalue/atomic.increment"@)),
            old(self).keyvalue_atomic matches Some(p) ==> ({
                &&& Self::same_but_keyvalue_atomic(*old(self), *final(self))
                &&& final(self).keyvalue_atomic matches Some(q) && increment_post(
                    p.counters(),
                    q.counters(),
                    bucket@,
                    key@,
                    delta,
                    r,
                )
            }),
    {
        match &mut self.keyvalue_atomic {
            Some(p) => p.increment(bucket, key, delta),
            None => Err(unconfigured("KeyvalueAtomic", "wasi:keyvalue/atomic.increment")),
        }
    }

    /// Route `compare-and-swap` to the bound atomic key-value provider.
    pub fn compare_and_swap(&mut self, bucket: &str, key: String, old_value: u64, new_value: u64) -> (r:
        Result<bool, CapabilityError>)
        ensures
            old(self).keyvalue_atomic is None ==> *final(self) == *old(self) && (r matches Err(e)
                && is_unconfigured_for(
                    e,
                    "KeyvalueAtomic"@,
                    "wasi:keyvalue/atomic.compare-and-swap"@,
                )),
            old(self).keyvalue_atomic matches Some(p) ==> ({
                &&& Self::same_but_keyvalue_atomic(*old(self), *final(self))
                &&& final(self).keyvalue_atomic matches Some(q) && compare_and_swap_post(
                    p.counters(),
                    q.counters(),
                    bucket@,
                    key@,
                    old_value,
                    new_value,
                    r,
                )
            }),
    {
        match &mut self.keyvalue_atomic {
            Some(p) => p.compare_and_swap(bucket, key, old_value, new_value),
            None => Err(unconfigured("KeyvalueAtomic", "wasi:keyvalue/atomic.compare-and-swap")),
        }
    }
}

impl<Bs, Ih, Oh, Ka, Ke: KeyValueEventual, Ms> Handler<Bs, Ih, Oh, Ka, Ke, Ms> {
    /// Route `get` to the bound eventual key-value provider.
    pub fn get(&self, bucket: &str, key: String) -> (r: Result<
        Option<(Vec<u8>, u64)>,
        CapabilityError,
    >)
        ensures
            self.keyvalue_eventual is None ==> (r matches Err(e) && is_unconfigured_for(
                e,
                "KeyvalueEventual"@,
                "wasi:keyvalue/eventual.get"@,
            )),
            self.keyvalue_eventual matches Some(p) ==> kv_get_post(p.entries(), bucket@, key@, r),
    {
        match proxy(&self.keyvalue_eventual, "KeyvalueEventual", "wasi:keyvalue/eventual.get") {
            Ok(p) => p.get(bucket, key),
            Err(e) => Err(e),
        }
    }

    /// Route `set` to the bound eventual key-value provider.
    pub fn set(&mut self, bucket: &str, key: String, value: Vec<u8>) -> (r: Result<
        (),
        CapabilityError,
    >)
        ensures
            old(self).keyvalue_eventual is None ==> *final(self) == *old(self) && (r matches Err(e)
                && is_unconfigured_for(e, "KeyvalueEventual"@, "wasi:keyvalue/eventual.set"@)),
            old(self).keyvalue_eventual matches Some(p) ==> ({
                &&& Self::same_but_keyvalue_eventual(*old(self), *final(self))
                &&& final(self).keyvalue_eventual matches Some(q) && kv_set_post(
                    p.entries(),
                    q.entries(),
                    bucket@,
                    key@,
                    value@,
                    r,
                )
            }),
    {
        match &mut self.keyvalue_eventual {
            Some(p) => p.set(bucket, key, value),
            None => Err(unconfigured("KeyvalueEventual", "wasi:keyvalue/eventual.set")),
        }
    }

    /// Route `delete` to the bound eventual key-value provider.
    pub fn delete(&mut self, bucket: &str, key: String) -> (r: Result<(), CapabilityError>)
        ensures
            old(self).keyvalue_eventual is None ==> *final(self) == *old(self) && (r matches Err(e)
                && is_unconfigured_for(e, "KeyvalueEventual"@, "wasi:keyvalue/eventual.delete"@)),
            old(self).keyvalue_eventual matches Some(p) ==> ({
                &&& Self::same_but_keyvalue_eventual(*old(self), *final(self))
                &&& final(self).keyvalue_eventual matches Some(q) && kv_delete_post(
                    p.entries(),
                    q.entries(),
                    bucket@,
                    key@,
                    r,
                )
            }),
    {
        match &mut self.keyvalue_eventual {
            Some(p) => p.delete(bucket, key),
            None => Err(unconfigured("KeyvalueEventual", "wasi:keyvalue/eventual.delete")),
        }
    }

    /// Route `exists` to the bound eventual key-value provider.
    pub fn has_entry(&self, bucket: &str, key: String) -> (r: Result<bool, CapabilityError>)
        ensures
            self.keyvalue_eventual is None ==> (r matches Err(e) && is_unconfigured_for(
                e,
                "KeyvalueEventual"@,
                "wasi:keyvalue/eventual.exists"@,
            )),
            self.keyvalue_eventual matches Some(p) ==> crate::keyvalue::kv_exists_post(
                p.entries(),
                bucket@,
                key@,
                r,
            ),
    {
        match proxy(&self.keyvalue_eventual, "KeyvalueEventual", "wasi:keyvalue/eventual.exists") {
            Ok(p) => p.has_entry(bucket, key),
            Err(e) => Err(e),
        }
    }
}

impl<Bs, Ih, Oh, Ka, Ke, Ms: Messaging> Handler<Bs, Ih, Oh, Ka, Ke, Ms> {
    /// Route `request` to the bound messaging provider.
    pub fn request(&mut self, subject: String, body: Option<Vec<u8>>, timeout_ms: u64) -> (r:
        Result<BrokerMessage, CapabilityError>)
        ensures
            old(self).messaging is None ==> *final(self) == *old(self) && (r matches Err(e)
                && is_unconfigured_for(e, "Messaging"@, "wasmcloud:messaging/consumer.request"@)),
            old(self).messaging is Some ==> Self::same_but_messaging(*old(self), *final(self)) && (
            r matches Err(e) ==> e is Timeout || e is BackendFault || e is Malformed),
    {
        match &mut self.messaging {
            Some(p) => p.request(subject, body, timeout_ms),
            None => Err(unconfigured("Messaging", "wasmcloud:messaging/consumer.request")),
        }
    }

    /// Route `request-multi` to the bound messaging provider.
    pub fn request_multi(
        &mut self,
        subject: String,
        body: Option<Vec<u8>>,
        timeout_ms: u64,
        max_results: u32,
    ) -> (r: Result<Vec<BrokerMessage>, CapabilityError>)
        ensures
            old(self).messaging is None ==> *final(self) == *old(self) && (r matches Err(e)
                && is_unconfigured_for(
                    e,
                    "Messaging"@,
                    "wasmcloud:messaging/consumer.request-multi"@,
                )),
            old(self).messaging is Some ==> Self::same_but_messaging(*old(self), *final(self)) && (
            r matches Ok(v) ==> v@.len() <= max_results) && (r matches Err(e) ==> e is Timeout
                || e is BackendFault || e is Malformed),
    {
        match &mut self.messaging {
            Some(p) => p.request_multi(subject, body, timeout_ms, max_results),
            None => Err(unconfigured("Messaging", "wasmcloud:messaging/consumer.request-multi")),
        }
    }

    /// Route `publish` to the bound messaging provider.
    pub fn publish(&mut self, msg: BrokerMessage) -> (r: Result<(), CapabilityError>)
        ensures
            old(self).messaging is None ==> *final(self) == *old(self) && (r matches Err(e)
                && is_unconfigured_for(e, "Messaging"@, "wasmcloud:messaging/consumer.publish"@)),
            old(self).messaging is Some ==> Self::same_but_messaging(*old(self), *final(self)) && (
            r matches Err(e) ==> e is Timeout || e is BackendFault || e is Malformed),
    {
        match &mut self.messaging {
            Some(p) => p.publish(msg),
            None => Err(unconfigured("Messaging", "wasmcloud:messaging/consumer.publish")),
        }
    }
}

impl<Bs, Ih: IncomingHttp, Oh, Ka, Ke, Ms> Handler<Bs, Ih, Oh, Ka, Ke, Ms> {
    /// Route an inbound request to the bound inbound-HTTP provider.
    pub fn handle_incoming_http(&mut self, request: HttpRequest) -> (r: Result<
        HttpResponse,
        CapabilityError,
    >)
        ensures
            old(self).incoming_http is None ==> *final(self) == *old(self) && (r matches Err(e)
                && is_unconfigured_for(e, "IncomingHttp"@, "wasi:http/incoming-handler.handle"@)),
            old(self).incoming_http is Some ==> Self::same_but_incoming_http(
                *old(self),
                *final(self),
            ) && (r matches Err(e) ==> e is Timeout || e is BackendFault || e is Malformed),
    {
        match &mut self.incoming_http {
            Some(p) => p.handle(request),
            None => Err(unconfigured("IncomingHttp", "wasi:http/incoming-handler.handle")),
        }
    }
}

impl<Bs, Ih, Oh: OutgoingHttp, Ka, Ke, Ms> Handler<Bs, Ih, Oh, Ka, Ke, Ms> {
    /// Route an outbound request to the bound outbound-HTTP provider.
    pub fn handle_outgoing_http(&mut self, request: OutgoingHttpRequest) -> (r: Result<
        HttpResponse,
        CapabilityError,
    >)
        ensures
            old(self).outgoing_http is None ==> *final(self) == *old(self) && (r matches Err(e)
                && is_unconfigured_for(e, "OutgoingHttp"@, "wasi:http/outgoing-handler.handle"@)),
            old(self).outgoing_http is Some ==> Self::same_but_outgoing_http(
                *old(self),
                *final(self),
            ) && (r matches Err(e) ==> e is Timeout || e is BackendFault || e is Malformed),
    {
        match &mut self.outgoing_http {
            Some(p) => p.handle(request),
            None => Err(unconfigured("OutgoingHttp", "wasi:http/outgoing-handler.handle")),
        }
    }
}

} // verus!
