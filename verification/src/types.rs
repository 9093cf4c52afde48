//! Value types of the session manager: peripheral addresses, GATT
//! identifiers, device projections, listeners and the error kinds.

use vstd::prelude::*;

verus! {

/// 128-bit GATT identifier of a service or characteristic. Value-typed:
/// equality is equality of the bits.
#[derive(Clone, Copy, PartialEq, Eq, Structural, Debug, Hash)]
pub struct BleUuid {
    pub bits: u128,
}

/// Identity of a peripheral: the 48-bit device address in the low bits.
/// Equality is identity; the order on the bits gives the stable listing
/// order of scan results.
#[derive(Clone, Copy, PartialEq, Eq, Structural, Debug, Hash)]
pub struct BleAddress {
    pub bits: u64,
}

/// Upper-case hexadecimal digit for a value below 16.
pub open spec fn hex_upper(n: u8) -> char {
    if n == 0 {
        '0'
    } else if n == 1 {
        '1'
    } else if n == 2 {
        '2'
    } else if n == 3 {
        '3'
    } else if n == 4 {
        '4'
    } else if n == 5 {
        '5'
    } else if n == 6 {
        '6'
    } else if n == 7 {
        '7'
    } else if n == 8 {
        '8'
    } else if n == 9 {
        '9'
    } else if n == 10 {
        'A'
    } else if n == 11 {
        'B'
    } else if n == 12 {
        'C'
    } else if n == 13 {
        'D'
    } else if n == 14 {
        'E'
    } else {
        'F'
    }
}

/// Two hexadecimal digits of one byte, high nibble first.
pub open spec fn byte_text(b: u8) -> Seq<char> {
    seq![hex_upper(b / 16), hex_upper(b % 16)]
}

/// Canonical text of an address: six colon-separated byte groups, most
/// significant byte first, as in `AA:BB:CC:DD:EE:01`.
pub open spec fn addr_text(bits: u64) -> Seq<char> {
    byte_text(((bits >> 40) & 0xff) as u8) + seq![':'] + byte_text(((bits >> 32) & 0xff) as u8)
        + seq![':'] + byte_text(((bits >> 24) & 0xff) as u8) + seq![':'] + byte_text(
        ((bits >> 16) & 0xff) as u8,
    ) + seq![':'] + byte_text(((bits >> 8) & 0xff) as u8) + seq![':'] + byte_text((bits & 0xff) as u8)
}

/// Relies on `alloc::string::String::push`: appends the given character to
/// the end of the string.
pub assume_specification[ String::push ](s: &mut String, c: char)
    ensures
        final(s)@ == old(s)@.push(c),
;

fn hex_upper_char(n: u8) -> (c: char)
    requires
        n < 16,
    ensures
        c == hex_upper(n),
{
    if n == 0 {
        '0'
    } else if n == 1 {
        '1'
    } else if n == 2 {
        '2'
    } else if n == 3 {
        '3'
    } else if n == 4 {
        '4'
    } else if n == 5 {
        '5'
    } else if n == 6 {
        '6'
    } else if n == 7 {
        '7'
    } else if n == 8 {
        '8'
    } else if n == 9 {
        '9'
    } else if n == 10 {
        'A'
    } else if n == 11 {
        'B'
    } else if n == 12 {
        'C'
    } else if n == 13 {
        'D'
    } else if n == 14 {
        'E'
    } else {
        'F'
    }
}

fn push_byte_text(s: &mut String, b: u8)
    ensures
        final(s)@ == old(s)@ + byte_text(b),
{
    s.push(hex_upper_char(b / 16));
    s.push(hex_upper_char(b % 16));
    assert(s@ =~= old(s)@ + byte_text(b));
}

impl BleAddress {
    /// Canonical text of this address, `AA:BB:CC:DD:EE:01`.
    pub fn text(&self) -> (r: String)
        ensures
            r@ == addr_text(self.bits),
    {
        let mut s = String::new();
        push_byte_text(&mut s, ((self.bits >> 40) & 0xff) as u8);
        s.push(':');
        push_byte_text(&mut s, ((self.bits >> 32) & 0xff) as u8);
        s.push(':');
        push_byte_text(&mut s, ((self.bits >> 24) & 0xff) as u8);
        s.push(':');
        push_byte_text(&mut s, ((self.bits >> 16) & 0xff) as u8);
        s.push(':');
        push_byte_text(&mut s, ((self.bits >> 8) & 0xff) as u8);
        s.push(':');
        push_byte_text(&mut s, (self.bits & 0xff) as u8);
        assert(s@ =~= addr_text(self.bits));
        s
    }
}

/// Projection of a peripheral for listing: identity, advertised name
/// (possibly empty), signal strength if known, transport connection state.
#[derive(Clone, Debug)]
pub struct BleDevice {
    pub address: BleAddress,
    pub name: String,
    pub rssi: Option<i16>,
    pub is_connected: bool,
}

/// Mathematical value of a device projection.
pub struct DeviceView {
    pub addr: u64,
    pub name: Seq<char>,
    pub rssi: Option<i16>,
    pub connected: bool,
}

impl View for BleDevice {
    type V = DeviceView;

    open spec fn view(&self) -> DeviceView {
        DeviceView {
            addr: self.address.bits,
            name: self.name@,
            rssi: self.rssi,
            connected: self.is_connected,
        }
    }
}

impl BleDevice {
    /// A fresh projection carrying the same value.
    pub fn snapshot(&self) -> (r: BleDevice)
        ensures
            r@ == self@,
    {
        BleDevice {
            address: self.address,
            name: self.name.clone(),
            rssi: self.rssi,
            is_connected: self.is_connected,
        }
    }
}

/// The device values held by a list of projections.
pub open spec fn device_views(s: Seq<BleDevice>) -> Seq<DeviceView> {
    s.map_values(|d: BleDevice| d@)
}

/// The outcomes of projecting one poll's peripherals: a value per success,
/// nothing for a malformed advertisement.
pub open spec fn poll_views(s: Seq<Option<BleDevice>>) -> Seq<Option<DeviceView>> {
    s.map_values(
        |o: Option<BleDevice>|
            match o {
                Some(d) => Some(d@),
                None => None,
            },
    )
}

/// A GATT characteristic on the connected device; carries its identifier.
#[derive(Clone, Copy, PartialEq, Eq, Structural, Debug)]
pub struct Characteristic {
    pub uuid: BleUuid,
}

/// A GATT service as resolved on the connected device: its identifier and
/// the characteristics it offers.
#[derive(Clone, Debug)]
pub struct GattService {
    pub uuid: BleUuid,
    pub characteristics: Vec<Characteristic>,
}

/// Token under which the caller registered a notification callback. The
/// callable itself runs on worker threads outside the library; the token
/// identifies it in dispatch decisions.
#[derive(Clone, Copy, PartialEq, Eq, Structural, Debug)]
pub struct CallbackId {
    pub token: u64,
}

/// A notification listener: the characteristic it watches and the callback
/// to invoke with each matching value.
#[derive(Clone, Copy, PartialEq, Eq, Structural, Debug)]
pub struct Listener {
    pub uuid: BleUuid,
    pub callback: CallbackId,
}

/// An adapter-level event. Only `DeviceDisconnected` drives a decision;
/// every other kind is collapsed into `Other` and ignored.
#[derive(Clone, Debug)]
pub enum AdapterEvent {
    DeviceDiscovered(BleAddress),
    DeviceConnected(BleAddress),
    DeviceDisconnected(BleAddress),
    Other,
}

/// Error kinds the session manager produces.
#[derive(Clone, Debug)]
pub enum Error {
    /// Initialization found no BLE adapter.
    NoAdapters,
    /// Accessor called before initialization completed.
    HandlerNotInitialized,
    /// Connect target absent from the registry; carries the canonical
    /// address text.
    UnknownPeripheral(String),
    /// Connect target equals the currently connected address.
    AlreadyConnected,
    /// Requested service absent after GATT discovery.
    ServiceNotFound,
    /// I/O targeted an identifier not in the retained characteristic list.
    CharacNotAvailable(BleUuid),
    /// Operation requires a connected session but none is present.
    NoDeviceConnected,
    /// The scan sink was closed by its receiver; carries the undelivered
    /// batch.
    SendingDevices(Vec<BleDevice>),
    /// Wrapped backend failure from a BLE call, as reported text.
    Adapter(String),
}

} // verus!
