//! A reference-counted managed box over an explicit heap model.
//!
//! A [`heap::Heap`] stands for the memory that the boxes live in: every
//! allocation holds a [`storage::Storage`] cell followed by one payload. A
//! [`handle::RocBox`] is a handle on such an allocation, and
//! [`transfer::SendSafeRocBox`] is a handle that is known not to share a
//! counted allocation with anybody else.
pub mod storage;
pub mod layout;
pub mod heap;
pub mod handle;
pub mod transfer;
pub mod compare;
pub mod format;
pub mod laws;
