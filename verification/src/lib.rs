//! Core of a BLE central-role session manager.
//!
//! The library holds the session logic itself: the device registry filled by
//! scanning, the connection state machine, characteristic resolution, the
//! listener list fed by `subscribe`, and the single teardown path that an
//! explicit disconnect and a peer-initiated link loss both converge on.
//! Every decision is a function over plain values with a proved contract;
//! the asynchronous BLE transport that carries those decisions out lives
//! outside the library and hands results back in as values.

use vstd::prelude::*;

pub mod handler;
pub mod scan;
pub mod types;

use handler::BleHandler;
use types::Error;

verus! {

/// Process-wide slot for the session manager. The slot is set once at
/// startup; accessors fail `HandlerNotInitialized` while it is empty.
pub struct HandlerSlot {
    pub inner: Option<BleHandler>,
}

impl HandlerSlot {
    /// An empty slot: no session manager has been installed yet.
    pub fn empty() -> (r: HandlerSlot)
        ensures
            r.inner is None,
    {
        HandlerSlot { inner: None }
    }
}

/// Installs the session manager into the slot, once. A second call leaves
/// the first manager in place and reports that nothing was installed.
pub fn init(slot: &mut HandlerSlot, handler: BleHandler) -> (installed: bool)
    ensures
        installed == (old(slot).inner is None),
        old(slot).inner is None ==> final(slot).inner == Some(handler),
        old(slot).inner is Some ==> final(slot).inner == old(slot).inner,
{
    match slot.inner {
        Some(_) => false,
        None => {
            slot.inner = Some(handler);
            true
        },
    }
}

/// Returns the installed session manager, or `HandlerNotInitialized` if
/// `init` has not run yet.
pub fn get_handler(slot: &HandlerSlot) -> (r: Result<&BleHandler, Error>)
    ensures
        slot.inner is Some <==> r is Ok,
        r matches Ok(h) ==> slot.inner == Some(*h),
        r matches Err(e) ==> e == Error::HandlerNotInitialized,
{
    match &slot.inner {
        Some(h) => Ok(h),
        None => Err(Error::HandlerNotInitialized),
    }
}

/// The facade takes the first enumerated adapter; with none present the
/// manager cannot be built and `NoAdapters` is reported.
pub fn select_adapter(adapter_count: usize) -> (r: Result<usize, Error>)
    ensures
        r is Ok <==> adapter_count > 0,
        r matches Ok(i) ==> i == 0,
        r matches Err(e) ==> e == Error::NoAdapters,
{
    if adapter_count > 0 {
        Ok(0)
    } else {
        Err(Error::NoAdapters)
    }
}

} // verus!

