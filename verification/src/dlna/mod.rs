//! Media renderers found on the network, and their volume.

pub mod description;
pub mod search;

use vstd::prelude::*;
use vstd::string::{StringExecFns, StringSliceAdditionalSpecFns};

use crate::command::{Effect, Event, VOLUME_STEP};
use crate::dlna::description::{Icon, Root, Service};
use crate::text::{decimal, decimal_text};
use crate::ui::toast::Toast;

verus! {

/// The loudest setting of a renderer.
pub const MAX_VOLUME: u8 = 100;

/// The volume nearest to `volume` that a renderer can be set to.
pub open spec fn clamped(volume: int) -> u8 {
    if volume < 0 {
        0
    } else if volume > MAX_VOLUME {
        MAX_VOLUME
    } else {
        volume as u8
    }
}

/// The volume one step up or down from `volume`.
pub open spec fn stepped(volume: u8, up: bool) -> u8 {
    if up {
        clamped(volume + VOLUME_STEP)
    } else {
        clamped(volume - VOLUME_STEP)
    }
}

/// The message that asks a renderer for its volume.
pub const GET_VOLUME: &'static str =
    "<?xml version=\"1.0\" encoding=\"utf-8\"?>\n<s:Envelope xmlns:s=\"http://schemas.xmlsoap.org/soap/envelope/\" s:encodingStyle=\"http://schemas.xmlsoap.org/soap/encoding/\">\n  <s:Body>\n    <u:GetVolume xmlns:u=\"urn:schemas-upnp-org:service:RenderingControl:1\">\n      <InstanceID>0</InstanceID>\n      <Channel>Master</Channel>\n    </u:GetVolume>\n  </s:Body>\n</s:Envelope>";

/// What stands before the volume in the message that sets it.
pub const SET_VOLUME_HEAD: &'static str =
    "<?xml version=\"1.0\" encoding=\"utf-8\"?>\n<s:Envelope xmlns:s=\"http://schemas.xmlsoap.org/soap/envelope/\" s:encodingStyle=\"http://schemas.xmlsoap.org/soap/encoding/\">\n  <s:Body>\n    <u:SetVolume xmlns:u=\"urn:schemas-upnp-org:service:RenderingControl:1\">\n      <InstanceID>0</InstanceID>\n      <Channel>Master</Channel>\n      <DesiredVolume>";

/// What stands after the volume in the message that sets it.
pub const SET_VOLUME_TAIL: &'static str =
    "</DesiredVolume>\n    </u:SetVolume>\n  </s:Body>\n</s:Envelope>";

/// The path at which a renderer takes messages about its volume.
pub const CONTROL_PATH: &'static str = "/upnp/control/RenderingControl1";

/// The message that sets the volume of a renderer to `volume`.
pub fn set_volume_body(volume: u8) -> (body: String)
    ensures
        body@ == SET_VOLUME_HEAD@ + decimal_text(volume as nat) + SET_VOLUME_TAIL@,
{
    String::from_str(SET_VOLUME_HEAD).concat(decimal(volume as u64).as_str()).concat(
        SET_VOLUME_TAIL,
    )
}

/// Whether a copy of `needle` stands at `at` in `bytes`.
pub open spec fn occurs_at(bytes: Seq<u8>, needle: Seq<u8>, at: int) -> bool {
    0 <= at && at + needle.len() <= bytes.len() && bytes.subrange(at, at + needle.len())
        == needle
}

/// The place of the first copy of `needle` in `bytes` from `from` on, if
/// there is one.
pub open spec fn find(bytes: Seq<u8>, needle: Seq<u8>, from: int) -> Option<int>
    decreases bytes.len() + 1 - from,
{
    if from < 0 || from + needle.len() > bytes.len() {
        None
    } else if occurs_at(bytes, needle, from) {
        Some(from)
    } else {
        find(bytes, needle, from + 1)
    }
}

/// Whether a byte is a digit.
pub open spec fn is_digit(byte: u8) -> bool {
    0x30 <= byte <= 0x39
}

/// The number that a run of digits stands for. There is none for an
/// empty run, or for one that holds anything but digits.
pub open spec fn digits_value(digits: Seq<u8>) -> Option<int>
    decreases digits.len(),
{
    if digits.len() == 0 || !is_digit(digits.last()) {
        None
    } else if digits.len() == 1 {
        Some(digits.last() - 0x30)
    } else {
        match digits_value(digits.drop_last()) {
            Some(value) => Some(value * 10 + (digits.last() - 0x30)),
            None => None,
        }
    }
}

/// The number below 256 that a text stands for: digits, with or without
/// a plus sign before them.
pub open spec fn parse_u8(text: Seq<u8>) -> Option<u8> {
    let digits = if text.len() > 0 && text[0] == 0x2b {
        text.drop_first()
    } else {
        text
    };
    match digits_value(digits) {
        Some(value) => if value <= u8::MAX {
            Some(value as u8)
        } else {
            None
        },
        None => None,
    }
}

/// The volume that an answer reports: the number between the first
/// `<CurrentVolume>` and the first `</CurrentVolume>` after it.
pub open spec fn reported_volume(answer: Seq<u8>) -> Option<u8> {
    let open = "<CurrentVolume>".spec_bytes();
    let close = "</CurrentVolume>".spec_bytes();
    match find(answer, open, 0) {
        Some(start) => match find(answer, close, start + open.len()) {
            Some(end) => parse_u8(answer.subrange(start + open.len(), end)),
            None => None,
        },
        None => None,
    }
}

proof fn find_skips(bytes: Seq<u8>, needle: Seq<u8>, from: int, to: int)
    requires
        0 <= from <= to,
        forall|j: int| from <= j < to ==> !#[trigger] occurs_at(bytes, needle, j),
    ensures
        find(bytes, needle, from) == find(bytes, needle, to),
    decreases to - from,
{
    if from < to {
        find_skips(bytes, needle, from + 1, to);
    }
}

fn matches_at(bytes: &[u8], needle: &[u8], at: usize) -> (same: bool)
    requires
        at + needle@.len() <= bytes@.len(),
    ensures
        same == occurs_at(bytes@, needle@, at as int),
{
    let total = bytes.len();
    let mut k: usize = 0;
    while k < needle.len()
        invariant
            k <= needle@.len(),
            at + needle@.len() <= bytes@.len(),
            bytes@.len() == total,
            forall|j: int| 0 <= j < k ==> bytes@[at + j] == needle@[j],
        decreases needle@.len() - k,
    {
        if bytes[at + k] != needle[k] {
            assert(bytes@.subrange(at as int, at + needle@.len())[k as int] == bytes@[at + k]);
            return false;
        }
        k += 1;
    }
    assert(bytes@.subrange(at as int, at + needle@.len()) =~= needle@);
    true
}

fn find_bytes(bytes: &[u8], needle: &[u8], from: usize) -> (found: Option<usize>)
    ensures
        match found {
            Some(i) => find(bytes@, needle@, from as int) == Some(i as int) && from <= i && i
                + needle@.len() <= bytes@.len(),
            None => find(bytes@, needle@, from as int) is None,
        },
{
    if needle.len() > bytes.len() || from > bytes.len() - needle.len() {
        return None;
    }
    let last = bytes.len() - needle.len();
    let mut i = from;
    while i < last
        invariant
            from <= i <= last,
            last == bytes@.len() - needle@.len(),
            forall|j: int| from <= j < i ==> !#[trigger] occurs_at(bytes@, needle@, j),
        decreases last - i,
    {
        if matches_at(bytes, needle, i) {
            proof {
                find_skips(bytes@, needle@, from as int, i as int);
            }
            return Some(i);
        }
        i += 1;
    }
    proof {
        find_skips(bytes@, needle@, from as int, last as int);
        assert(find(bytes@, needle@, last + 1) is None);
    }
    if matches_at(bytes, needle, last) {
        Some(last)
    } else {
        None
    }
}

fn parse_digits(bytes: &[u8], lo: usize, hi: usize) -> (number: Option<u8>)
    requires
        lo <= hi <= bytes@.len(),
    ensures
        number == parse_u8(bytes@.subrange(lo as int, hi as int)),
{
    let ghost text = bytes@.subrange(lo as int, hi as int);
    let start = if lo < hi && bytes[lo] == 0x2b {
        lo + 1
    } else {
        lo
    };
    let ghost digits = bytes@.subrange(start as int, hi as int);
    proof {
        if lo < hi {
            assert(text[0] == bytes@[lo as int]);
        }
        if start > lo {
            assert(text.drop_first() =~= digits);
        } else {
            assert(text =~= digits);
        }
    }
    if start == hi {
        return None;
    }
    // The value read so far, or 256 once it is beyond the range.
    let mut value: u32 = 0;
    let mut i = start;
    while i < hi
        invariant
            start <= i <= hi <= bytes@.len(),
            lo <= start,
            digits == bytes@.subrange(start as int, hi as int),
            parse_u8(bytes@.subrange(lo as int, hi as int)) == match digits_value(digits) {
                Some(exact) => if exact <= u8::MAX {
                    Some(exact as u8)
                } else {
                    None
                },
                None => None,
            },
            value <= 256,
            i > start ==> match digits_value(digits.take(i - start)) {
                Some(exact) => if exact <= 255 {
                    value == exact
                } else {
                    value == 256
                },
                None => false,
            },
            i == start ==> value == 0,
        decreases hi - i,
    {
        let byte = bytes[i];
        let ghost read = digits.take(i - start + 1);
        proof {
            assert(read.last() == byte);
            assert(read.drop_last() =~= digits.take(i - start));
        }
        if !(0x30 <= byte && byte <= 0x39) {
            proof {
                assert(digits_value(read) is None);
                digits_need_digits(digits, i - start + 1);
            }
            return None;
        }
        value = value * 10 + (byte - 0x30) as u32;
        if value > 255 {
            value = 256;
        }
        i += 1;
    }
    proof {
        assert(digits.take(hi - start) =~= digits);
    }
    if value > 255 {
        None
    } else {
        Some(value as u8)
    }
}

/// A run of digits has no value unless each part of it from the start
/// has one.
proof fn digits_need_digits(digits: Seq<u8>, n: int)
    requires
        0 < n <= digits.len(),
        digits_value(digits.take(n)) is None,
    ensures
        digits_value(digits) is None,
    decreases digits.len() - n,
{
    if n < digits.len() {
        assert(digits.take(n + 1).drop_last() =~= digits.take(n));
        digits_need_digits(digits, n + 1);
    } else {
        assert(digits.take(n) =~= digits);
    }
}

/// Reads the volume that a renderer reports in its answer.
pub fn current_volume(answer: &str) -> (volume: Option<u8>)
    ensures
        volume == reported_volume(answer.spec_bytes()),
{
    let bytes = answer.as_bytes();
    let total = bytes.len();
    let open = "<CurrentVolume>".as_bytes();
    let close = "</CurrentVolume>".as_bytes();
    match find_bytes(bytes, open, 0) {
        Some(start) => {
            let from = start + open.len();
            match find_bytes(bytes, close, from) {
                Some(end) => parse_digits(bytes, from, end),
                None => None,
            }
        },
        None => None,
    }
}

/// A renderer on the network.
#[derive(Debug, PartialEq, Eq)]
pub struct DlnaDevice {
    pub description: Root,
    /// Where the renderer describes itself.
    pub location: String,
    /// The volume as far as it is known.
    pub volume: u8,
}

impl DlnaDevice {
    /// A renderer whose volume is not known yet.
    pub fn new(description: Root, location: String) -> (device: DlnaDevice)
        ensures
            device == (DlnaDevice { description, location, volume: 0 }),
    {
        DlnaDevice { description, location, volume: 0 }
    }

    /// The name that the renderer gives itself.
    pub fn friendly_name(&self) -> (name: &str)
        ensures
            name@ == self.description.device.friendly_name@,
    {
        self.description.device.friendly_name.as_str()
    }

    /// The pictures that stand for the renderer.
    pub fn icons(&self) -> (icons: &[Icon])
        ensures
            icons@ == self.description.device.icon_list.icon@,
    {
        self.description.device.icon_list.as_slice()
    }

    /// The services that the renderer offers.
    pub fn services(&self) -> (services: &[Service])
        ensures
            services@ == self.description.device.service_list.service@,
    {
        self.description.device.service_list.as_slice()
    }

    /// The volume as far as it is known.
    pub fn volume(&self) -> (volume: u8)
        ensures
            volume == self.volume,
    {
        self.volume
    }

    /// Takes `volume`, brought into the range of the renderer, as the
    /// new volume, and gives back the message that tells the renderer.
    pub fn set_volume(&mut self, volume: u8) -> (body: String)
        ensures
            final(self).volume == clamped(volume as int),
            final(self).description == old(self).description,
            final(self).location == old(self).location,
            body@ == SET_VOLUME_HEAD@ + decimal_text(clamped(volume as int) as nat)
                + SET_VOLUME_TAIL@,
    {
        let volume = if volume > MAX_VOLUME {
            MAX_VOLUME
        } else {
            volume
        };
        self.volume = volume;
        set_volume_body(volume)
    }

    /// Takes the volume from the answer of the renderer to the message
    /// that asks for it. An answer that reports no volume is handed back
    /// as a failure, and the volume stays as it was.
    pub fn get_volume(&mut self, answer: &str) -> (read: Option<u8>)
        ensures
            read == reported_volume(answer.spec_bytes()),
            final(self).volume == match read {
                Some(volume) => volume,
                None => old(self).volume,
            },
            final(self).description == old(self).description,
            final(self).location == old(self).location,
    {
        let read = current_volume(answer);
        match read {
            Some(volume) => {
                self.volume = volume;
            },
            None => {},
        }
        read
    }
}

/// The renderers found so far, in the order in which they were found.
#[derive(Debug, PartialEq, Eq)]
pub struct Dlna {
    pub devices: Vec<DlnaDevice>,
}

impl Dlna {
    /// No renderer was found yet.
    pub fn new() -> (dlna: Dlna)
        ensures
            dlna.devices@.len() == 0,
    {
        Dlna { devices: Vec::new() }
    }

    /// Takes in a renderer that was found, and gives back the notice
    /// that says so, under the name of the renderer.
    pub fn update(&mut self, device: DlnaDevice) -> (event: Event)
        ensures
            final(self).devices@ == old(self).devices@.push(device),
            event matches Event::Toast(Toast::DlnaDeviceDiscovered { name }) && name
                == device.description.device.friendly_name,
    {
        let name = device.description.device.friendly_name.clone();
        self.devices.push(device);
        Event::Toast(Toast::DlnaDeviceDiscovered { name })
    }

    /// The renderers found so far.
    pub fn devices(&mut self) -> (devices: &mut Vec<DlnaDevice>)
        ensures
            *devices == old(self).devices,
            final(self).devices == *final(devices),
    {
        &mut self.devices
    }

    /// Whether `effects` and the renderers `after` are what one step of
    /// the volume leads to.
    ///
    /// The step goes to the renderer found first: its volume moves by
    /// one step, within its range, and the renderer is to be told.
    /// Without a renderer nothing happens.
    pub open spec fn steps_volume(&self, after: &Dlna, up: bool, effects: Seq<Effect>) -> bool {
        if self.devices@.len() == 0 {
            effects.len() == 0 && *after == *self
        } else {
            let volume = stepped(self.devices@[0].volume, up);
            &&& effects.len() == 1
            &&& effects[0] matches Effect::SetVolume { device, body }
            &&& device == 0
            &&& body@ == SET_VOLUME_HEAD@ + decimal_text(volume as nat) + SET_VOLUME_TAIL@
            &&& after.devices@.len() == self.devices@.len()
            &&& after.devices@[0].volume == volume
            &&& after.devices@[0].description == self.devices@[0].description
            &&& after.devices@[0].location == self.devices@[0].location
            &&& forall|i: int| 1 <= i < self.devices@.len() ==> after.devices@[i] == self.devices@[i]
        }
    }

    /// Moves the volume of the renderer found first by one step.
    pub fn step_volume(&mut self, up: bool) -> (effect: Option<Effect>)
        ensures
            old(self).steps_volume(
                final(self),
                up,
                match effect {
                    Some(effect) => seq![effect],
                    None => Seq::empty(),
                },
            ),
    {
        if self.devices.len() == 0 {
            return None;
        }
        let current = self.devices[0].volume;
        let target: u8 = if up {
            if current > u8::MAX - VOLUME_STEP {
                u8::MAX
            } else {
                current + VOLUME_STEP
            }
        } else {
            if current < VOLUME_STEP {
                0
            } else {
                current - VOLUME_STEP
            }
        };
        let body = self.devices[0].set_volume(target);
        Some(Effect::SetVolume { device: 0, body })
    }
}

} // verus!
