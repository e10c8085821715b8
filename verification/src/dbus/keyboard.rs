//! The Keyboard interface: brightness, color and mode requests for the
//! discovered keyboard controllers.
use crate::dbus::{failed, is_failed_with, BusError};
use crate::error::{IoError, IoErrorKind};
use crate::hid::{KeyboardLed, LedRequest, Rgb};
use crate::text::{concat, decimal, decimal_text};
use vstd::prelude::*;

verus! {

/// D-Bus object implementing the Keyboard interface.
pub struct KeyboardInterface<K: KeyboardLed> {
    keyboards: Vec<K>,
}

/// The message of an unknown keyboard index.
pub open spec fn bad_index_message(index: u32) -> Seq<char> {
    "invalid keyboard index: "@ + decimal_text(index as nat)
}

/// The error of an unknown keyboard index.
fn bad_index(index: u32) -> (r: BusError)
    ensures
        r matches BusError::InvalidArgs(m) && m@ == bad_index_message(index),
{
    BusError::InvalidArgs(concat("invalid keyboard index: ", decimal(index as u64).as_str()))
}

/// `after` is `before` with the keyboard at `index` asked `request`, with
/// outcome `ok`, and the other keyboards untouched.
pub open spec fn asked_one<K: KeyboardLed>(
    before: Seq<K>,
    after: Seq<K>,
    index: int,
    request: LedRequest,
    ok: bool,
) -> bool {
    &&& after.len() == before.len()
    &&& after[index].requests() == before[index].requests().push((request, ok))
    &&& after[index].zones() == before[index].zones()
    &&& forall|j: int| 0 <= j < before.len() && j != index ==> after[j] == before[j]
}

/// The message of a zone that the keyboard does not have.
pub open spec fn bad_zone_message(zone: u8, zones: u8) -> Seq<char> {
    "zone "@ + decimal_text(zone as nat) + " out of range (device has "@ + decimal_text(zones as nat)
        + " zones)"@
}

impl<K: KeyboardLed> KeyboardInterface<K> {
    /// The interface over these keyboards.
    pub fn new(keyboards: Vec<K>) -> (r: Self)
        ensures
            r.keyboards_spec() == keyboards@,
    {
        KeyboardInterface { keyboards }
    }

    /// The keyboards, in index order.
    pub closed spec fn keyboards_spec(&self) -> Seq<K> {
        self.keyboards@
    }

    /// The number of discovered keyboard LED controllers.
    pub fn keyboard_count(&self) -> (r: u32)
        ensures
            r as int == (if self.keyboards_spec().len() > u32::MAX {
                u32::MAX as int
            } else {
                self.keyboards_spec().len() as int
            }),
    {
        if self.keyboards.len() > u32::MAX as usize {
            u32::MAX
        } else {
            self.keyboards.len() as u32
        }
    }

    /// The keyboard at `index`, for inspection.
    pub fn keyboard(&self, index: u32) -> (r: Option<&K>)
        ensures
            index < self.keyboards_spec().len() ==> r == Some(&self.keyboards_spec()[index as int]),
            index >= self.keyboards_spec().len() ==> r is None,
    {
        if (index as usize) < self.keyboards.len() {
            Some(&self.keyboards[index as usize])
        } else {
            None
        }
    }

    /// Set brightness (0–255) for a keyboard.
    pub fn set_brightness(&mut self, index: u32, brightness: u8) -> (r: Result<(), BusError>)
        ensures
            index >= old(self).keyboards_spec().len() ==> (r matches Err(BusError::InvalidArgs(m))
                && m@ == bad_index_message(index)),
            index >= old(self).keyboards_spec().len() ==> final(self).keyboards_spec() == old(
                self,
            ).keyboards_spec(),
            K::obeys_led_model() && index < old(self).keyboards_spec().len() ==> asked_one(
                old(self).keyboards_spec(),
                final(self).keyboards_spec(),
                index as int,
                LedRequest::SetBrightness(brightness),
                r is Ok,
            ),
            r matches Err(e) ==> index >= old(self).keyboards_spec().len() || e is Failed,
    {
        let i = index as usize;
        if i >= self.keyboards.len() {
            return Err(bad_index(index));
        }
        match self.keyboards[i].set_brightness(brightness) {
            Ok(()) => Ok(()),
            Err(e) => Err(failed(e)),
        }
    }

    /// Set the color of a zone of a keyboard; a zone that the keyboard
    /// does not have fails the call.
    pub fn set_color(&mut self, index: u32, zone: u8, red: u8, green: u8, blue: u8) -> (r: Result<(), BusError>)
        ensures
            index >= old(self).keyboards_spec().len() ==> (r matches Err(BusError::InvalidArgs(m))
                && m@ == bad_index_message(index)),
            index >= old(self).keyboards_spec().len() ==> final(self).keyboards_spec() == old(
                self,
            ).keyboards_spec(),
            K::obeys_led_model() && index < old(self).keyboards_spec().len() && zone >= old(self).keyboards_spec()[index as int].zones()
                ==> (r matches Err(e) && is_failed_with(
                e,
                bad_zone_message(zone, old(self).keyboards_spec()[index as int].zones()),
            )) && final(self).keyboards_spec() == old(self).keyboards_spec(),
            K::obeys_led_model() && index < old(self).keyboards_spec().len() && zone < old(self).keyboards_spec()[index as int].zones()
                ==> asked_one(
                old(self).keyboards_spec(),
                final(self).keyboards_spec(),
                index as int,
                LedRequest::SetColor(zone, Rgb { r: red, g: green, b: blue }),
                r is Ok,
            ),
            r matches Err(e) ==> index >= old(self).keyboards_spec().len() || e is Failed,
    {
        let i = index as usize;
        if i >= self.keyboards.len() {
            return Err(bad_index(index));
        }
        let zones = self.keyboards[i].zone_count();
        if zone >= zones {
            let a = concat("zone ", decimal(zone as u64).as_str());
            let b = concat(a.as_str(), " out of range (device has ");
            let c = concat(b.as_str(), decimal(zones as u64).as_str());
            return Err(failed(IoError { kind: IoErrorKind::InvalidInput, message: concat(c.as_str(), " zones)") }));
        }
        match self.keyboards[i].set_color(zone, Rgb::new(red, green, blue)) {
            Ok(()) => Ok(()),
            Err(e) => Err(failed(e)),
        }
    }

    /// Set the animation mode of a keyboard.
    pub fn set_mode(&mut self, index: u32, mode: &str) -> (r: Result<(), BusError>)
        ensures
            index >= old(self).keyboards_spec().len() ==> (r matches Err(BusError::InvalidArgs(m))
                && m@ == bad_index_message(index)),
            index >= old(self).keyboards_spec().len() ==> final(self).keyboards_spec() == old(
                self,
            ).keyboards_spec(),
            K::obeys_led_model() && index < old(self).keyboards_spec().len() ==> asked_one(
                old(self).keyboards_spec(),
                final(self).keyboards_spec(),
                index as int,
                LedRequest::SetMode(mode@),
                r is Ok,
            ),
            r matches Err(e) ==> index >= old(self).keyboards_spec().len() || e is Failed,
    {
        let i = index as usize;
        if i >= self.keyboards.len() {
            return Err(bad_index(index));
        }
        match self.keyboards[i].set_mode(mode) {
            Ok(()) => Ok(()),
            Err(e) => Err(failed(e)),
        }
    }

    /// Turn off a keyboard's LEDs.
    pub fn turn_off(&mut self, index: u32) -> (r: Result<(), BusError>)
        ensures
            index >= old(self).keyboards_spec().len() ==> (r matches Err(BusError::InvalidArgs(m))
                && m@ == bad_index_message(index)),
            index >= old(self).keyboards_spec().len() ==> final(self).keyboards_spec() == old(
                self,
            ).keyboards_spec(),
            K::obeys_led_model() && index < old(self).keyboards_spec().len() ==> asked_one(
                old(self).keyboards_spec(),
                final(self).keyboards_spec(),
                index as int,
                LedRequest::TurnOff,
                r is Ok,
            ),
            r matches Err(e) ==> index >= old(self).keyboards_spec().len() || e is Failed,
    {
        let i = index as usize;
        if i >= self.keyboards.len() {
            return Err(bad_index(index));
        }
        match self.keyboards[i].turn_off() {
            Ok(()) => Ok(()),
            Err(e) => Err(failed(e)),
        }
    }

    /// Turn on a keyboard's LEDs.
    pub fn turn_on(&mut self, index: u32) -> (r: Result<(), BusError>)
        ensures
            index >= old(self).keyboards_spec().len() ==> (r matches Err(BusError::InvalidArgs(m))
                && m@ == bad_index_message(index)),
            index >= old(self).keyboards_spec().len() ==> final(self).keyboards_spec() == old(
                self,
            ).keyboards_spec(),
            K::obeys_led_model() && index < old(self).keyboards_spec().len() ==> asked_one(
                old(self).keyboards_spec(),
                final(self).keyboards_spec(),
                index as int,
                LedRequest::TurnOn,
                r is Ok,
            ),
            r matches Err(e) ==> index >= old(self).keyboards_spec().len() || e is Failed,
    {
        let i = index as usize;
        if i >= self.keyboards.len() {
            return Err(bad_index(index));
        }
        match self.keyboards[i].turn_on() {
            Ok(()) => Ok(()),
            Err(e) => Err(failed(e)),
        }
    }

    /// Flush a keyboard's buffered state to hardware.
    pub fn flush(&mut self, index: u32) -> (r: Result<(), BusError>)
        ensures
            index >= old(self).keyboards_spec().len() ==> (r matches Err(BusError::InvalidArgs(m))
                && m@ == bad_index_message(index)),
            index >= old(self).keyboards_spec().len() ==> final(self).keyboards_spec() == old(
                self,
            ).keyboards_spec(),
            K::obeys_led_model() && index < old(self).keyboards_spec().len() ==> asked_one(
                old(self).keyboards_spec(),
                final(self).keyboards_spec(),
                index as int,
                LedRequest::Flush,
                r is Ok,
            ),
            r matches Err(e) ==> index >= old(self).keyboards_spec().len() || e is Failed,
    {
        let i = index as usize;
        if i >= self.keyboards.len() {
            return Err(bad_index(index));
        }
        match self.keyboards[i].flush() {
            Ok(()) => Ok(()),
            Err(e) => Err(failed(e)),
        }
    }
}

} // verus!
