//! The device's identity and driver version as read from their request
//! buffers, the device path as a nul-terminated string, and the probe: the
//! fixed sequence of requests that ends in a capability report.
use vstd::prelude::*;
use vstd::string::StringSliceAdditionalSpecFns;
use crate::bits::bit_set;
use crate::control::{ProbeError, Request};
use crate::event::{event_code_value, type_code, type_of_code, EventCode, EventType};
use crate::probe::{decode_event_types, decode_key_codes, needs_key_codes};

verus! {

/// Relies on String::push: appends `c` to the end of `s`.
#[verifier::external_body]
fn push_char(s: &mut String, c: char)
    ensures
        final(s)@ == old(s)@.push(c),
{
    s.push(c)
}

/// A nul-terminated path.
pub struct CString {
    text: String,
    bytes: Vec<u8>,
}

impl CString {
    /// The path `s`, with a nul after it, as text and as bytes.
    pub fn new(s: &str) -> (r: CString)
        ensures
            r.wf(),
            r.view() == s@,
            r.bytes_view() == s.spec_bytes().push(0u8),
    {
        let mut text = s.to_owned();
        push_char(&mut text, '\0');
        let src = s.as_bytes();
        let mut bytes: Vec<u8> = Vec::new();
        let mut k: usize = 0;
        while k < src.len()
            invariant
                k <= src@.len(),
                src@ == s.spec_bytes(),
                bytes@ == src@.subrange(0, k as int),
            decreases src@.len() - k,
        {
            bytes.push(src[k]);
            k = k + 1;
        }
        bytes.push(0u8);
        assert(src@.subrange(0, k as int) =~= src@);
        assert(text@.drop_last() =~= s@);
        CString { text, bytes }
    }

    /// The characters of the path, without the nul.
    pub closed spec fn view(&self) -> Seq<char> {
        self.text@.drop_last()
    }

    /// The stored text is the path followed by one nul.
    pub closed spec fn wf(&self) -> bool {
        self.text@.len() > 0 && self.text@.last() == '\0'
    }

    /// The bytes of the path with the final nul.
    pub closed spec fn bytes_view(&self) -> Seq<u8> {
        self.bytes@
    }

    /// The stored text: the path followed by its nul.
    pub fn as_ref(&self) -> (r: &str)
        requires
            self.wf(),
        ensures
            r@ == self.view().push('\0'),
    {
        assert(self.text@ =~= self.text@.drop_last().push('\0'));
        self.text.as_str()
    }

    /// The bytes of the path, nul included.
    pub fn as_bytes(&self) -> (r: &Vec<u8>)
        ensures
            r@ == self.bytes_view(),
    {
        &self.bytes
    }
}

/// The identity of an input device: bus type, vendor, product and version.
#[derive(Clone, Copy, Debug, PartialEq, Eq, Structural)]
pub struct InputId {
    pub bustype: u16,
    pub vendor: u16,
    pub product: u16,
    pub version: u16,
}

/// The 16-bit value of two bytes, low byte first.
pub open spec fn le16(lo: u8, hi: u8) -> int {
    lo as int + 256 * hi as int
}

impl InputId {
    /// An identity of zeros.
    pub fn new() -> (r: InputId)
        ensures
            r.bustype == 0 && r.vendor == 0 && r.product == 0 && r.version == 0,
    {
        InputId { bustype: 0, vendor: 0, product: 0, version: 0 }
    }

    /// Reads the identity from the 8-byte buffer of its request: four 16-bit
    /// fields, bus type at offset 0, vendor at 2, product at 4, version at 6,
    /// each low byte first.
    pub fn from_bytes(b: &Vec<u8>) -> (r: InputId)
        requires
            b@.len() == 8,
        ensures
            r.bustype == le16(b@[0], b@[1]),
            r.vendor == le16(b@[2], b@[3]),
            r.product == le16(b@[4], b@[5]),
            r.version == le16(b@[6], b@[7]),
    {
        InputId {
            bustype: b[0] as u16 + (b[1] as u16) * 256,
            vendor: b[2] as u16 + (b[3] as u16) * 256,
            product: b[4] as u16 + (b[5] as u16) * 256,
            version: b[6] as u16 + (b[7] as u16) * 256,
        }
    }
}

/// A driver version split into its three bytes.
#[derive(Clone, Copy, Debug, PartialEq, Eq, Structural)]
pub struct DriverVersion {
    pub major: u8,
    pub minor: u8,
    pub patch: u8,
}

impl DriverVersion {
    /// Splits `v`: major is `(v >> 16) & 0xFF`, minor `(v >> 8) & 0xFF`,
    /// patch `v & 0xFF`.
    pub fn from_raw(v: u32) -> (r: DriverVersion)
        ensures
            r.major == (v >> 16u32) & 0xFFu32,
            r.minor == (v >> 8u32) & 0xFFu32,
            r.patch == v & 0xFFu32,
    {
        assert(((v >> 16u32) & 0xFFu32) <= 0xFF) by (bit_vector);
        assert(((v >> 8u32) & 0xFFu32) <= 0xFF) by (bit_vector);
        assert((v & 0xFFu32) <= 0xFF) by (bit_vector);
        DriverVersion {
            major: ((v >> 16u32) & 0xFFu32) as u8,
            minor: ((v >> 8u32) & 0xFFu32) as u8,
            patch: (v & 0xFFu32) as u8,
        }
    }
}

/// What a probe found: identity, driver version, event types (Synchro
/// always among them), the set type bits that name no known type, and the
/// buttons of the key type.
pub struct CapabilityReport {
    pub id: InputId,
    pub version: DriverVersion,
    pub types: Vec<EventType>,
    pub unmapped: Vec<usize>,
    pub codes: Vec<EventCode>,
}

impl CapabilityReport {
    /// Whether the device has the event type `t`.
    pub fn has_event_type(&self, t: EventType) -> (r: bool)
        ensures
            r == self.types@.contains(t),
    {
        let mut k: usize = 0;
        while k < self.types.len()
            invariant
                k <= self.types@.len(),
                forall|j: int| 0 <= j < k ==> self.types@[j] != t,
            decreases self.types@.len() - k,
        {
            if self.types[k] == t {
                assert(self.types@[k as int] == t);
                return true;
            }
            k = k + 1;
        }
        false
    }

    /// Whether the device has the button `c` of the key type.
    pub fn has_event_code(&self, c: EventCode) -> (r: bool)
        ensures
            r == self.codes@.contains(c),
    {
        let mut k: usize = 0;
        while k < self.codes.len()
            invariant
                k <= self.codes@.len(),
                forall|j: int| 0 <= j < k ==> self.codes@[j] != c,
            decreases self.codes@.len() - k,
        {
            if self.codes[k] == c {
                assert(self.codes@[k as int] == c);
                return true;
            }
            k = k + 1;
        }
        false
    }
}

/// The stages of a probe, in order.
#[derive(Clone, Copy, Debug, PartialEq, Eq, Structural)]
pub enum Stage {
    Identity,
    Version,
    TypeBits,
    CodeBits,
    Assembled,
    /// A request failed for good; the probe ended without a report.
    Aborted(ProbeError),
}

/// A probe in progress: the stage it is in and what it has read so far.
pub struct Probe {
    pub stage: Stage,
    pub report: CapabilityReport,
}

impl Probe {
    /// A probe that has read nothing yet.
    pub fn new() -> (r: Probe)
        ensures
            r.stage == Stage::Identity,
            r.report.types@.len() == 0,
            r.report.unmapped@.len() == 0,
            r.report.codes@.len() == 0,
    {
        Probe {
            stage: Stage::Identity,
            report: CapabilityReport {
                id: InputId::new(),
                version: DriverVersion { major: 0, minor: 0, patch: 0 },
                types: Vec::new(),
                unmapped: Vec::new(),
                codes: Vec::new(),
            },
        }
    }

    /// The request the probe needs next, or `None` once it is assembled.
    pub fn next_request(&self) -> (r: Option<Request>)
        ensures
            r == match self.stage {
                Stage::Identity => Some(Request::GetId),
                Stage::Version => Some(Request::GetVersion),
                Stage::TypeBits => Some(Request::GetBits),
                Stage::CodeBits => Some(Request::GetKeyBits),
                Stage::Assembled => None::<Request>,
                Stage::Aborted(_) => None::<Request>,
            },
    {
        match self.stage {
            Stage::Identity => Some(Request::GetId),
            Stage::Version => Some(Request::GetVersion),
            Stage::TypeBits => Some(Request::GetBits),
            Stage::CodeBits => Some(Request::GetKeyBits),
            Stage::Assembled => None,
            Stage::Aborted(_) => None,
        }
    }

    /// Ends a probe whose pending request failed for good: no later request
    /// is issued and no report comes out.
    pub fn abort(&mut self, e: ProbeError)
        requires
            old(self).stage != Stage::Assembled,
            !(old(self).stage is Aborted),
        ensures
            final(self).stage == Stage::Aborted(e),
    {
        self.stage = Stage::Aborted(e);
    }

    /// The outcome of a finished probe: the whole report once assembled, the
    /// error once aborted.
    pub fn finish(self) -> (r: Result<CapabilityReport, ProbeError>)
        requires
            self.stage == Stage::Assembled || self.stage is Aborted,
        ensures
            self.stage == Stage::Assembled ==> r == Ok::<CapabilityReport, ProbeError>(self.report),
            self.stage is Aborted ==> r == Err::<CapabilityReport, ProbeError>(self.stage->Aborted_0),
    {
        match self.stage {
            Stage::Aborted(e) => Err(e),
            _ => Ok(self.report),
        }
    }

    /// Takes the buffer of the identity request.
    pub fn accept_id(&mut self, b: &Vec<u8>)
        requires
            old(self).stage == Stage::Identity,
            b@.len() == 8,
        ensures
            final(self).stage == Stage::Version,
            final(self).report.id.bustype == le16(b@[0], b@[1]),
            final(self).report.id.vendor == le16(b@[2], b@[3]),
            final(self).report.id.product == le16(b@[4], b@[5]),
            final(self).report.id.version == le16(b@[6], b@[7]),
            final(self).report.version == old(self).report.version,
            final(self).report.types@ == old(self).report.types@,
            final(self).report.unmapped@ == old(self).report.unmapped@,
            final(self).report.codes@ == old(self).report.codes@,
    {
        self.report.id = InputId::from_bytes(b);
        self.stage = Stage::Version;
    }

    /// Takes the value of the version request.
    pub fn accept_version(&mut self, v: u32)
        requires
            old(self).stage == Stage::Version,
        ensures
            final(self).stage == Stage::TypeBits,
            final(self).report.version.major == (v >> 16u32) & 0xFFu32,
            final(self).report.version.minor == (v >> 8u32) & 0xFFu32,
            final(self).report.version.patch == v & 0xFFu32,
            final(self).report.id == old(self).report.id,
            final(self).report.types@ == old(self).report.types@,
            final(self).report.unmapped@ == old(self).report.unmapped@,
            final(self).report.codes@ == old(self).report.codes@,
    {
        self.report.version = DriverVersion::from_raw(v);
        self.stage = Stage::TypeBits;
    }

    /// Takes the event-type bitmap: decodes it, and moves on to the key
    /// bitmap where the key type is present, else to the end.
    pub fn accept_type_bits(&mut self, bits: u64)
        requires
            old(self).stage == Stage::TypeBits,
        ensures
            final(self).stage == if bit_set(seq![bits], 1) { Stage::CodeBits } else { Stage::Assembled },
            final(self).report.types@.no_duplicates(),
            forall|t: EventType| #[trigger] final(self).report.types@.contains(t) <==>
                (t == EventType::Synchro || bit_set(seq![bits], type_code(t) as int)),
            forall|i: usize| #[trigger] final(self).report.unmapped@.contains(i) <==>
                (i < 32 && bit_set(seq![bits], i as int) && type_of_code(i as int) is None),
            final(self).report.id == old(self).report.id,
            final(self).report.version == old(self).report.version,
            final(self).report.codes@ == old(self).report.codes@,
    {
        let d = decode_event_types(bits);
        let key = needs_key_codes(&d.types);
        assert(key == bit_set(seq![bits], 1)) by {
            assert(type_code(EventType::Key) == 1);
        }
        self.report.types = d.types;
        self.report.unmapped = d.unmapped;
        self.stage = if key { Stage::CodeBits } else { Stage::Assembled };
    }

    /// Takes the key bitmap of 12 words and decodes its buttons.
    pub fn accept_key_bits(&mut self, words: &Vec<u64>)
        requires
            old(self).stage == Stage::CodeBits,
            words@.len() == 12,
        ensures
            final(self).stage == Stage::Assembled,
            final(self).report.codes@.no_duplicates(),
            forall|c: EventCode| #[trigger] final(self).report.codes@.contains(c) <==>
                bit_set(words@, event_code_value(c) as int),
            final(self).report.id == old(self).report.id,
            final(self).report.version == old(self).report.version,
            final(self).report.types@ == old(self).report.types@,
            final(self).report.unmapped@ == old(self).report.unmapped@,
    {
        self.report.codes = decode_key_codes(words);
        self.stage = Stage::Assembled;
    }
}

} // verus!
