//! The session manager's state machine: registry, connection controller,
//! I/O surface decisions, listener list and the single teardown path.
//!
//! Each operation of the manager is a decision over plain values. The
//! asynchronous transport performs the BLE calls between decisions and
//! hands their outcomes back in as arguments.

use vstd::prelude::*;

use crate::scan::{contains_addr, sorted_by_addr, sorted_upsert, upsert_all};
use crate::types::{
    addr_text, device_views, poll_views, AdapterEvent, BleAddress, BleDevice, BleUuid, CallbackId,
    Characteristic, Error, GattService, Listener,
};

verus! {

/// The session manager's state. At most one peripheral is connected at any
/// instant: the `connected` slot holds its identity or nothing.
pub struct BleHandler {
    /// Device registry filled by scanning, sorted by address.
    pub devices: Vec<BleDevice>,
    /// Identity of the connected peripheral, if any.
    pub connected: Option<BleAddress>,
    /// Characteristics retained by service resolution.
    pub characs: Vec<Characteristic>,
    /// Notification listeners added by `subscribe`.
    pub listeners: Vec<Listener>,
    /// Whether the notification pump task is running.
    pub pump_running: bool,
    /// Whether an on-disconnect hook is installed.
    pub has_hook: bool,
}

/// What teardown hands the performer before the transport is touched:
/// whether a pump task must be aborted, and which peripheral, if any, may
/// still need a transport disconnect.
#[derive(Clone, Copy, PartialEq, Eq, Structural, Debug)]
pub struct DisconnectPrep {
    pub abort_pump: bool,
    pub peripheral: Option<BleAddress>,
}

/// The index of the first service carrying the requested identifier.
pub open spec fn first_service(ss: Seq<GattService>, u: BleUuid, k: int) -> bool {
    &&& 0 <= k < ss.len()
    &&& ss[k].uuid == u
    &&& forall|j: int| 0 <= j < k ==> ss[j].uuid != u
}

/// The characteristics of a service retained by resolution: those whose
/// identifier was requested, in the order the service lists them.
pub open spec fn select_characs(cs: Seq<Characteristic>, req: Seq<BleUuid>) -> Seq<Characteristic>
    decreases cs.len(),
{
    if cs.len() == 0 {
        Seq::empty()
    } else {
        select_characs(cs.drop_last(), req) + if req.contains(cs.last().uuid) {
            seq![cs.last()]
        } else {
            Seq::empty()
        }
    }
}

/// The callbacks a notification on the given characteristic is dispatched
/// to: one per matching listener, in list order.
pub open spec fn targets(ls: Seq<Listener>, u: BleUuid) -> Seq<CallbackId>
    decreases ls.len(),
{
    if ls.len() == 0 {
        Seq::empty()
    } else {
        targets(ls.drop_last(), u) + if ls.last().uuid == u {
            seq![ls.last().callback]
        } else {
            Seq::empty()
        }
    }
}

/// First phase of teardown: the pump is stopped and the listener list
/// cleared, and the performer learns what remains to be done outside.
pub open spec fn teardown_prepared(pre: BleHandler, post: BleHandler, r: DisconnectPrep) -> bool {
    &&& r.abort_pump == pre.pump_running
    &&& r.peripheral == pre.connected
    &&& !post.pump_running
    &&& post.listeners@.len() == 0
    &&& post.connected == pre.connected
    &&& post.characs@ == pre.characs@
    &&& post.has_hook == pre.has_hook
    &&& post.devices@ == pre.devices@
}

/// A session holding nothing: idle, with every list empty.
pub open spec fn idle_empty(h: BleHandler) -> bool {
    &&& h.connected is None
    &&& h.characs@.len() == 0
    &&& h.listeners@.len() == 0
    &&& !h.pump_running
    &&& !h.has_hook
    &&& h.devices@.len() == 0
}

/// Second phase of teardown: the hook is reported exactly as installed and
/// removed, and the session is left idle and empty.
pub open spec fn teardown_completed(pre: BleHandler, post: BleHandler, fired: bool) -> bool {
    &&& fired == pre.has_hook
    &&& idle_empty(post)
}

/// One listener was appended for a characteristic of the resolved list;
/// nothing else moved.
pub open spec fn subscribed(
    pre: BleHandler,
    post: BleHandler,
    c: Characteristic,
    cb: CallbackId,
) -> bool {
    &&& post.listeners@ == pre.listeners@.push(Listener { uuid: c.uuid, callback: cb })
    &&& post.connected == pre.connected
    &&& post.characs@ == pre.characs@
    &&& post.devices@ == pre.devices@
    &&& post.pump_running == pre.pump_running
    &&& post.has_hook == pre.has_hook
}

impl BleHandler {
    /// The mathematical content of the registry.
    pub open spec fn registry(self) -> Seq<crate::types::DeviceView> {
        device_views(self.devices@)
    }

    /// Well-formedness: the registry is sorted, the pump only runs for a
    /// connected session, and an idle session holds nothing.
    pub open spec fn wf(self) -> bool {
        &&& sorted_by_addr(self.registry())
        &&& (self.pump_running ==> self.connected is Some)
        &&& (self.connected is None ==> self.characs@.len() == 0 && self.listeners@.len() == 0
            && !self.pump_running && !self.has_hook)
    }

    /// A fresh, idle session manager with an empty registry.
    pub fn new() -> (h: BleHandler)
        ensures
            h.wf(),
            idle_empty(h),
    {
        BleHandler {
            devices: Vec::new(),
            connected: None,
            characs: Vec::new(),
            listeners: Vec::new(),
            pump_running: false,
            has_hook: false,
        }
    }

    /// An empty registry asks for a bootstrap discovery before connecting.
    pub fn registry_is_empty(&self) -> (r: bool)
        ensures
            r == (self.devices@.len() == 0),
    {
        self.devices.len() == 0
    }

    /// Whether the registry knows a peripheral under this address.
    pub fn knows_address(&self, address: BleAddress) -> (r: bool)
        ensures
            r == contains_addr(self.registry(), address.bits),
    {
        let mut i: usize = 0;
        while i < self.devices.len()
            invariant
                i <= self.devices@.len(),
                forall|k: int| 0 <= k < i ==> self.registry()[k].addr != address.bits,
            decreases self.devices@.len() - i,
        {
            if self.devices[i].address.bits == address.bits {
                assert(self.registry()[i as int].addr == address.bits);
                return true;
            }
            assert(self.registry()[i as int].addr != address.bits);
            i += 1;
        }
        false
    }

    /// The scan clears the registry right after the scan starts, so that no
    /// entry of an earlier scan is reported again.
    pub fn discover_begin(&mut self)
        requires
            old(self).wf(),
        ensures
            final(self).wf(),
            final(self).devices@.len() == 0,
            final(self).connected == old(self).connected,
            final(self).characs@ == old(self).characs@,
            final(self).listeners@ == old(self).listeners@,
            final(self).pump_running == old(self).pump_running,
            final(self).has_hook == old(self).has_hook,
    {
        self.devices = Vec::new();
    }

    /// One scan poll: every successfully projected device is upserted into
    /// the registry, and the poll's own batch comes back sorted by address.
    /// A failed projection (a malformed advertisement) is skipped and must
    /// not abort the scan.
    pub fn add_devices(&mut self, discovered: &Vec<Option<BleDevice>>) -> (r: Vec<BleDevice>)
        requires
            old(self).wf(),
        ensures
            final(self).wf(),
            device_views(final(self).devices@) == upsert_all(
                device_views(old(self).devices@),
                poll_views(discovered@),
            ),
            device_views(r@) == upsert_all(Seq::empty(), poll_views(discovered@)),
            sorted_by_addr(device_views(r@)),
            final(self).connected == old(self).connected,
            final(self).characs@ == old(self).characs@,
            final(self).listeners@ == old(self).listeners@,
            final(self).pump_running == old(self).pump_running,
            final(self).has_hook == old(self).has_hook,
    {
        let ghost all = poll_views(discovered@);
        let ghost r0 = device_views(old(self).devices@);
        let mut batch: Vec<BleDevice> = Vec::new();
        let mut i: usize = 0;
        assert(all.skip(0) =~= all);
        assert(device_views(batch@) =~= Seq::<crate::types::DeviceView>::empty());
        while i < discovered.len()
            invariant
                i <= discovered@.len(),
                all == poll_views(discovered@),
                old(self).wf(),
                upsert_all(r0, all) == upsert_all(device_views(self.devices@), all.skip(i as int)),
                upsert_all(Seq::empty(), all) == upsert_all(
                    device_views(batch@),
                    all.skip(i as int),
                ),
                sorted_by_addr(device_views(self.devices@)),
                sorted_by_addr(device_views(batch@)),
                self.connected == old(self).connected,
                self.characs@ == old(self).characs@,
                self.listeners@ == old(self).listeners@,
                self.pump_running == old(self).pump_running,
                self.has_hook == old(self).has_hook,
            decreases discovered@.len() - i,
        {
            let ghost tail = all.skip(i as int);
            assert(tail[0] == all[i as int]);
            assert(tail.drop_first() =~= all.skip(i as int + 1));
            match &discovered[i] {
                Some(d) => {
                    assert(all[i as int] == Some(d@));
                    sorted_upsert(&mut self.devices, d.snapshot());
                    sorted_upsert(&mut batch, d.snapshot());
                },
                None => {
                    assert(all[i as int] is None);
                },
            }
            i += 1;
        }
        assert(all.skip(discovered@.len() as int) =~= Seq::<Option<crate::types::DeviceView>>::empty());
        batch
    }

    /// Connect admission: a target equal to the connected address is
    /// rejected as `AlreadyConnected`; a target the registry does not know
    /// is rejected as `UnknownPeripheral` under its canonical address text;
    /// any other target may proceed.
    pub fn connect_check(&self, address: BleAddress) -> (r: Result<(), Error>)
        ensures
            self.connected == Some(address) ==> r == Err::<(), Error>(Error::AlreadyConnected),
            self.connected != Some(address) && !contains_addr(self.registry(), address.bits)
                ==> (r matches Err(e) && e matches Error::UnknownPeripheral(s) && s@ == addr_text(
                address.bits,
            )),
            self.connected != Some(address) && contains_addr(self.registry(), address.bits) ==> r
                == Ok::<(), Error>(()),
    {
        if let Some(a) = self.connected {
            if a.bits == address.bits {
                return Err(Error::AlreadyConnected);
            }
        }
        if self.knows_address(address) {
            Ok(())
        } else {
            Err(Error::UnknownPeripheral(address.text()))
        }
    }

    /// Publishes the opened link as the session's connected peripheral,
    /// before resolution, so that a concurrent teardown can find it.
    pub fn connect_publish(&mut self, address: BleAddress)
        requires
            old(self).wf(),
            contains_addr(old(self).registry(), address.bits),
        ensures
            final(self).wf(),
            final(self).connected == Some(address),
            final(self).devices@ == old(self).devices@,
            final(self).characs@ == old(self).characs@,
            final(self).listeners@ == old(self).listeners@,
            final(self).pump_running == old(self).pump_running,
            final(self).has_hook == old(self).has_hook,
    {
        self.connected = Some(address);
    }

    /// Service resolution: locate the first discovered service carrying the
    /// requested identifier, else fail `ServiceNotFound`; retain exactly its
    /// characteristics whose identifiers were requested, in service order.
    /// Requested identifiers the service lacks are silently omitted.
    pub fn connect_service(
        &mut self,
        service: BleUuid,
        requested: &Vec<BleUuid>,
        services: &Vec<GattService>,
    ) -> (r: Result<(), Error>)
        requires
            old(self).wf(),
            old(self).connected is Some,
        ensures
            final(self).wf(),
            final(self).connected == old(self).connected,
            final(self).devices@ == old(self).devices@,
            final(self).listeners@ == old(self).listeners@,
            final(self).pump_running == old(self).pump_running,
            final(self).has_hook == old(self).has_hook,
            (exists|k: int| first_service(services@, service, k)) <==> r is Ok,
            r matches Err(e) ==> e == Error::ServiceNotFound && final(self).characs@ == old(
                self,
            ).characs@,
            forall|k: int|
                first_service(services@, service, k) ==> final(self).characs@ == select_characs(
                    services@[k].characteristics@,
                    requested@,
                ),
    {
        let mut i: usize = 0;
        while i < services.len()
            invariant
                i <= services@.len(),
                forall|j: int| 0 <= j < i ==> services@[j].uuid != service,
                *self == *old(self),
                old(self).wf(),
                old(self).connected is Some,
            decreases services@.len() - i,
        {
            if services[i].uuid == service {
                let cs = &services[i].characteristics;
                let mut sel: Vec<Characteristic> = Vec::new();
                let mut c: usize = 0;
                assert(cs@.subrange(0, 0) =~= Seq::<Characteristic>::empty());
                while c < cs.len()
                    invariant
                        c <= cs@.len(),
                        sel@ == select_characs(cs@.subrange(0, c as int), requested@),
                    decreases cs@.len() - c,
                {
                    let ghost prefix = cs@.subrange(0, c as int + 1);
                    assert(prefix.drop_last() =~= cs@.subrange(0, c as int));
                    assert(prefix.last() == cs@[c as int]);
                    if contains_uuid(requested, cs[c].uuid) {
                        sel.push(cs[c]);
                    }
                    c += 1;
                }
                assert(cs@.subrange(0, cs@.len() as int) =~= cs@);
                self.characs = sel;
                assert(first_service(services@, service, i as int));
                proof {
                    assert forall|k: int| first_service(services@, service, k) implies k
                        == i as int by {
                        if k < i {
                            assert(services@[k].uuid != service);
                        }
                        if i < k {
                            assert(services@[i as int].uuid != service);
                        }
                    }
                }
                return Ok(());
            }
            i += 1;
        }
        assert forall|k: int| !first_service(services@, service, k) by {
            if 0 <= k < services@.len() {
                assert(services@[k].uuid != service);
            }
        }
        Err(Error::ServiceNotFound)
    }

    /// A failure between link opening and resolution leaves the session
    /// idle with the registry intact; the performer aborts the pump task if
    /// one was reported and disconnects the transport.
    pub fn connect_rollback(&mut self) -> (abort_pump: bool)
        requires
            old(self).wf(),
        ensures
            final(self).wf(),
            abort_pump == old(self).pump_running,
            final(self).connected is None,
            final(self).characs@.len() == 0,
            final(self).listeners@.len() == 0,
            !final(self).pump_running,
            !final(self).has_hook,
            final(self).devices@ == old(self).devices@,
    {
        let abort = self.pump_running;
        self.connected = None;
        self.characs = Vec::new();
        self.listeners = Vec::new();
        self.pump_running = false;
        self.has_hook = false;
        abort
    }

    /// Completes a successful connect: installs the on-disconnect hook if
    /// one was given and records the started notification pump.
    pub fn connect_finish(&mut self, install_hook: bool)
        requires
            old(self).wf(),
            old(self).connected is Some,
        ensures
            final(self).wf(),
            final(self).pump_running,
            final(self).has_hook == install_hook,
            final(self).connected == old(self).connected,
            final(self).devices@ == old(self).devices@,
            final(self).characs@ == old(self).characs@,
            final(self).listeners@ == old(self).listeners@,
    {
        self.has_hook = install_hook;
        self.pump_running = true;
    }

    /// First phase of the single teardown path: stop the pump, clear the
    /// listener list, and report which peripheral may still need a
    /// transport disconnect. Runs the same from Idle, where there is
    /// nothing to do.
    pub fn disconnect_begin(&mut self) -> (r: DisconnectPrep)
        requires
            old(self).wf(),
        ensures
            final(self).wf(),
            teardown_prepared(*old(self), *final(self), r),
    {
        let r = DisconnectPrep { abort_pump: self.pump_running, peripheral: self.connected };
        self.pump_running = false;
        self.listeners = Vec::new();
        r
    }

    /// Second phase of the single teardown path, after the transport
    /// disconnect: reports whether the installed hook must fire — exactly
    /// once, since it is removed here — and leaves the session idle with
    /// every list and the registry cleared.
    pub fn disconnect_finish(&mut self) -> (fire_hook: bool)
        requires
            old(self).wf(),
            !old(self).pump_running,
            old(self).listeners@.len() == 0,
        ensures
            final(self).wf(),
            teardown_completed(*old(self), *final(self), fire_hook),
            fire_hook == old(self).has_hook,
            final(self).listeners@.len() == 0,
            !final(self).pump_running,
    {
        let fire = self.has_hook;
        self.connected = None;
        self.has_hook = false;
        self.characs = Vec::new();
        self.devices = Vec::new();
        fire
    }

    /// Resolves an I/O target: the retained characteristic carrying the
    /// identifier, or `CharacNotAvailable` if resolution kept none.
    pub fn get_charac(&self, uuid: BleUuid) -> (r: Result<Characteristic, Error>)
        ensures
            (exists|k: int|
                0 <= k < self.characs@.len() && self.characs@[k].uuid == uuid) <==> r is Ok,
            r matches Ok(c) ==> self.characs@.contains(c) && c.uuid == uuid,
            r matches Err(e) ==> e == Error::CharacNotAvailable(uuid),
    {
        let mut i: usize = 0;
        while i < self.characs.len()
            invariant
                i <= self.characs@.len(),
                forall|k: int| 0 <= k < i ==> self.characs@[k].uuid != uuid,
            decreases self.characs@.len() - i,
        {
            if self.characs[i].uuid == uuid {
                assert(self.characs@[i as int].uuid == uuid);
                return Ok(self.characs[i]);
            }
            i += 1;
        }
        Err(Error::CharacNotAvailable(uuid))
    }

    /// Appends a listener for a characteristic of the resolved list. A
    /// second subscription to the same identifier is additive: each
    /// matching notification then reaches both callbacks.
    pub fn subscribe(&mut self, c: Characteristic, callback: CallbackId)
        requires
            old(self).wf(),
            old(self).connected is Some,
            old(self).characs@.contains(c),
        ensures
            final(self).wf(),
            subscribed(*old(self), *final(self), c, callback),
    {
        self.listeners.push(Listener { uuid: c.uuid, callback });
    }

    /// The callbacks one notification is dispatched to: every listener on
    /// the notification's characteristic, in the order they subscribed.
    pub fn notify_targets(&self, uuid: BleUuid) -> (r: Vec<CallbackId>)
        ensures
            r@ == targets(self.listeners@, uuid),
    {
        let mut out: Vec<CallbackId> = Vec::new();
        let mut i: usize = 0;
        assert(self.listeners@.subrange(0, 0) =~= Seq::<Listener>::empty());
        while i < self.listeners.len()
            invariant
                i <= self.listeners@.len(),
                out@ == targets(self.listeners@.subrange(0, i as int), uuid),
            decreases self.listeners@.len() - i,
        {
            let ghost prefix = self.listeners@.subrange(0, i as int + 1);
            assert(prefix.drop_last() =~= self.listeners@.subrange(0, i as int));
            assert(prefix.last() == self.listeners@[i as int]);
            if self.listeners[i].uuid == uuid {
                out.push(self.listeners[i].callback);
            }
            i += 1;
        }
        assert(self.listeners@.subrange(0, self.listeners@.len() as int) =~= self.listeners@);
        out
    }

    /// The session's transport-level connection state: false when idle,
    /// otherwise the transport's own answer for the connected peripheral.
    pub fn check_connected(&self, transport_connected: bool) -> (r: bool)
        ensures
            r == (self.connected is Some && transport_connected),
    {
        match self.connected {
            Some(_) => transport_connected,
            None => false,
        }
    }

    /// The connected peripheral's identity, or `NoDeviceConnected` when the
    /// session is idle.
    pub fn connected_device(&self) -> (r: Result<BleAddress, Error>)
        ensures
            self.connected matches Some(a) ==> r == Ok::<BleAddress, Error>(a),
            self.connected is None ==> r == Err::<BleAddress, Error>(Error::NoDeviceConnected),
    {
        match self.connected {
            Some(a) => Ok(a),
            None => Err(Error::NoDeviceConnected),
        }
    }

    /// The event reactor's one decision: only a peripheral disconnect
    /// event triggers teardown; every other adapter event is ignored.
    pub fn handle_event(&self, event: &AdapterEvent) -> (teardown: bool)
        ensures
            teardown == (event matches AdapterEvent::DeviceDisconnected(_)),
    {
        match event {
            AdapterEvent::DeviceDisconnected(_) => true,
            _ => false,
        }
    }
}

/// At most one peripheral is connected at any instant: the session holds a
/// single optional peripheral identity, never more.
pub open spec fn connected_count(h: BleHandler) -> int {
    if h.connected is Some {
        1
    } else {
        0
    }
}

/// However the mutating operations interleave, a session state never holds
/// more than one connected peripheral.
pub proof fn lemma_single_connection(h: BleHandler)
    ensures
        connected_count(h) <= 1,
{
}

/// After any completed teardown — explicit or event-triggered — the
/// listener list is empty and the pump is not running.
pub proof fn lemma_teardown_quiescent(
    pre: BleHandler,
    mid: BleHandler,
    post: BleHandler,
    prep: DisconnectPrep,
    fired: bool,
)
    requires
        teardown_prepared(pre, mid, prep),
        teardown_completed(mid, post, fired),
    ensures
        post.listeners@.len() == 0,
        !post.pump_running,
        post.connected is None,
{
}

/// The on-disconnect hook fires exactly once per Connected-to-Idle
/// transition: one teardown reports the hook exactly as installed and
/// removes it, so a second teardown has nothing left to fire.
pub proof fn lemma_hook_fires_once(
    pre: BleHandler,
    mid: BleHandler,
    post: BleHandler,
    fired1: bool,
    fired2: bool,
)
    requires
        teardown_completed(pre, mid, fired1),
        teardown_completed(mid, post, fired2),
    ensures
        fired1 == pre.has_hook,
        !fired2,
{
}

/// A listener enters the list only for a characteristic of the resolved
/// list: the appended entry's identifier is carried by some retained
/// characteristic.
pub proof fn lemma_subscribe_targets_resolved(
    pre: BleHandler,
    post: BleHandler,
    c: Characteristic,
    cb: CallbackId,
)
    requires
        subscribed(pre, post, c, cb),
        pre.characs@.contains(c),
    ensures
        post.listeners@.len() == pre.listeners@.len() + 1,
        post.listeners@.last().uuid == c.uuid,
        exists|k: int|
            0 <= k < post.characs@.len() && post.characs@[k].uuid == post.listeners@.last().uuid,
{
    let i = choose|i: int| 0 <= i < pre.characs@.len() && pre.characs@[i] == c;
    assert(post.characs@[i].uuid == post.listeners@.last().uuid);
}

/// A listener in place when a notification arrives observes it: after a
/// subscription, dispatch on the subscribed characteristic reaches every
/// callback it reached before, and then the new one; dispatch on any other
/// characteristic is unchanged.
pub proof fn lemma_listener_observes_notification(
    pre: BleHandler,
    post: BleHandler,
    c: Characteristic,
    cb: CallbackId,
    u: BleUuid,
)
    requires
        subscribed(pre, post, c, cb),
    ensures
        c.uuid == u ==> targets(post.listeners@, u) == targets(pre.listeners@, u).push(cb),
        c.uuid != u ==> targets(post.listeners@, u) == targets(pre.listeners@, u),
{
    let l = Listener { uuid: c.uuid, callback: cb };
    let pushed = pre.listeners@.push(l);
    assert(pushed.drop_last() =~= pre.listeners@);
    assert(pushed.last() == l);
    if c.uuid == u {
        assert(targets(pushed, u) =~= targets(pre.listeners@, u).push(cb));
    } else {
        assert(targets(pushed, u) =~= targets(pre.listeners@, u));
    }
}

/// Teardown from Idle is a success and a no-op: nothing to abort, no
/// peripheral to disconnect, no hook to fire, and an idle session with an
/// empty registry is left exactly as it was.
pub proof fn lemma_disconnect_idle_noop(
    pre: BleHandler,
    mid: BleHandler,
    post: BleHandler,
    prep: DisconnectPrep,
    fired: bool,
)
    requires
        pre.wf(),
        pre.connected is None,
        teardown_prepared(pre, mid, prep),
        teardown_completed(mid, post, fired),
    ensures
        !prep.abort_pump,
        prep.peripheral is None,
        !fired,
        pre.devices@.len() == 0 ==> idle_empty(pre) && idle_empty(post),
{
}

/// Whether the requested identifier list carries this identifier.
fn contains_uuid(req: &Vec<BleUuid>, u: BleUuid) -> (r: bool)
    ensures
        r == req@.contains(u),
{
    let mut i: usize = 0;
    while i < req.len()
        invariant
            i <= req@.len(),
            forall|k: int| 0 <= k < i ==> req@[k] != u,
        decreases req@.len() - i,
    {
        if req[i].bits == u.bits {
            assert(req@[i as int] == u);
            return true;
        }
        i += 1;
    }
    false
}

} // verus!
