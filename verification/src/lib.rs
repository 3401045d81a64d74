//! Host-side capability runtime for sandboxed guest code.
//!
//! A [`handler::Handler`] binds each capability kind (blob storage, key-value
//! storage, messaging, inbound and outbound HTTP) to at most one provider and
//! routes typed calls to it, failing with an "unconfigured" error when no
//! provider is bound. Provider contracts are stated as verified traits over
//! mathematical models of the backing stores.

pub mod blobstore;
pub mod dispatch;
pub mod errors;
pub mod handler;
pub mod host;
pub mod http;
pub mod keyvalue;
pub mod memory;
pub mod messaging;
pub mod s3;
pub mod stdio;
pub mod target;

pub use blobstore::{Blobstore, ContainerMetadata, ObjectMetadata};
pub use errors::{with_context, CapabilityError};
pub use handler::{format_opt, proxy, unconfigured, Handler, HandlerBuilder};
pub use host::Host;
pub use http::{HttpRequest, HttpResponse, IncomingHttp, OutgoingHttp, OutgoingHttpRequest};
pub use keyvalue::{KeyValueAtomic, KeyValueEventual};
pub use memory::{
    copy_bytes, MemoryBlobstore, MemoryBlobstoreContainer, MemoryBlobstoreObject, MemoryKeyValue,
    MemoryKeyValueEntry,
};
pub use s3::{
    bucket_listed, container_info_result, content_length_u64, created_at_seconds, get_data_result,
    has_object_result, list_keys, object_info_result, range_header, submit_result, u64_to_dec,
    DataSource, GetObjectOutcome, ObjectStatOutcome,
};
pub use target::{ActorIdentifier, TargetEntity, TargetInterface};
pub use messaging::{BrokerMessage, Messaging};
pub use stdio::{LockOutcome, ReadDirective, StdioStream, WriteDirective};
