//! Abstract interfaces: the storage capability and the transaction
//! processor, with the specifications their implementations must meet.

pub mod datastore;
pub mod processor;
