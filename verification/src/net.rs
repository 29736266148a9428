//! The transport types that the session carries around without looking
//! inside them: the two halves of a websocket over a Unix stream, each behind
//! a lock and shared by reference count.

use async_std::os::unix::net::UnixStream;
use parking_lot::lock_api::Mutex;
use parking_lot::RawMutex;
use soketto::connection::{Receiver, Sender};
use std::sync::Arc;
use vstd::prelude::*;

verus! {

/// The sending half of a websocket connection.
#[verifier::external_type_specification]
#[verifier::external_body]
#[verifier::reject_recursive_types(T)]
pub struct ExSender<T>(Sender<T>);

/// The receiving half of a websocket connection.
#[verifier::external_type_specification]
#[verifier::external_body]
#[verifier::reject_recursive_types(T)]
pub struct ExReceiver<T>(Receiver<T>);

/// A Unix domain socket stream.
#[verifier::external_type_specification]
#[verifier::external_body]
pub struct ExUnixStream(UnixStream);

/// The lock primitive under a `parking_lot` mutex.
#[verifier::external_type_specification]
#[verifier::external_body]
pub struct ExRawMutex(RawMutex);

/// A mutual exclusion lock around a value.
#[verifier::external_type_specification]
#[verifier::external_body]
#[verifier::reject_recursive_types(R)]
#[verifier::reject_recursive_types(T)]
pub struct ExMutex<R, T: ?Sized>(Mutex<R, T>);

/// The outbound channel of one connection, shared between everything that
/// sends on it.
pub type SafeSender = Arc<Mutex<RawMutex, Sender<UnixStream>>>;

/// The inbound channel of one connection.
pub type SafeReceiver = Arc<Mutex<RawMutex, Receiver<UnixStream>>>;

/// `Arc::clone` gives a second handle to the very same value.
#[verifier::external_body]
pub(crate) fn share<T>(handle: &Arc<T>) -> (other: Arc<T>)
    ensures
        other == *handle,
{
    Arc::clone(handle)
}

} // verus!
