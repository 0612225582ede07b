//! Quantities, records and payloads shared by the payload builder.

use vstd::prelude::*;
use crate::time::Time;

verus! {

/// Index of a block in the chain.
#[derive(Clone, Copy, Debug, PartialEq, Eq, Structural, Hash)]
pub struct Height(pub u64);

impl Height {
    /// The height with the given index.
    pub fn new(index: u64) -> (h: Height)
        ensures
            h.0 == index,
    {
        Height(index)
    }

    /// The index of this height.
    pub fn get(self) -> (index: u64)
        ensures
            index == self.0,
    {
        self.0
    }
}

/// A number of bytes. Sums and differences of byte counts never wrap: a
/// difference stops at zero, a sum that does not fit is reported as such.
#[derive(Clone, Copy, Debug, PartialEq, Eq, Structural, Hash)]
pub struct NumBytes(pub u64);

impl NumBytes {
    /// The count of `bytes` bytes.
    pub fn new(bytes: u64) -> (n: NumBytes)
        ensures
            n.0 == bytes,
    {
        NumBytes(bytes)
    }

    /// The number of bytes counted.
    pub fn get(self) -> (bytes: u64)
        ensures
            bytes == self.0,
    {
        self.0
    }

    /// What is left of `self` after `used` bytes, and nothing where `used`
    /// is the larger.
    pub fn saturating_sub(self, used: NumBytes) -> (left: NumBytes)
        ensures
            left.0 == if self.0 >= used.0 {
                self.0 - used.0
            } else {
                0
            },
    {
        if self.0 >= used.0 {
            NumBytes(self.0 - used.0)
        } else {
            NumBytes(0)
        }
    }

    /// The sum of the two counts, where it fits in 64 bits.
    pub fn checked_add(self, more: NumBytes) -> (sum: Option<NumBytes>)
        ensures
            sum == if self.0 + more.0 <= u64::MAX {
                Some(NumBytes((self.0 + more.0) as u64))
            } else {
                None
            },
    {
        if more.0 <= u64::MAX - self.0 {
            Some(NumBytes(self.0 + more.0))
        } else {
            None
        }
    }
}

/// Version of the registry at which a configuration is read.
#[derive(Clone, Copy, Debug, PartialEq, Eq, Structural, Hash)]
pub struct RegistryVersion(pub u64);

impl RegistryVersion {
    /// The registry version with the given number.
    pub fn new(version: u64) -> (v: RegistryVersion)
        ensures
            v.0 == version,
    {
        RegistryVersion(version)
    }

    /// The number of this version.
    pub fn get(self) -> (version: u64)
        ensures
            version == self.0,
    {
        self.0
    }
}

/// Identifier of a subnet.
#[derive(Clone, Copy, Debug, PartialEq, Eq, Structural, Hash)]
pub struct SubnetId(pub u64);

/// Snapshot of the external state that a payload is built or validated
/// against.
#[derive(Clone, Copy, Debug, PartialEq, Eq, Structural, Hash)]
pub struct ValidationContext {
    pub registry_version: RegistryVersion,
    pub certified_height: Height,
    pub time: Time,
}

/// The limits that the registry holds for a subnet.
#[derive(Clone, Copy, Debug, PartialEq, Eq, Structural, Hash)]
pub struct SubnetRecord {
    pub max_block_payload_size: u64,
    pub max_ingress_bytes_per_message: u64,
}

/// The subnet records that a block maker works with.
#[derive(Clone, Copy, Debug, PartialEq, Eq, Structural, Hash)]
pub struct SubnetRecords {
    /// The record at the registry version that decides membership.
    pub membership_version: SubnetRecord,
    /// The record at the registry version of the validation context.
    pub context_version: SubnetRecord,
}

/// The message classes that share a block payload.
#[derive(Clone, Copy, Debug, PartialEq, Eq, Structural, Hash)]
pub enum SectionKind {
    /// Messages that users send to canisters.
    Ingress,
    /// Responses of the adapter to an external chain.
    SelfValidating,
    /// Streams of messages from other subnets.
    XNet,
    /// Responses to HTTP requests that canisters made.
    CanisterHttp,
}

/// The messages of one class in one block, each as its bytes.
#[derive(Clone, Debug, PartialEq, Eq)]
pub struct SectionPayload {
    pub messages: Vec<Vec<u8>>,
}

impl View for SectionPayload {
    type V = Seq<Seq<u8>>;

    open spec fn view(&self) -> Seq<Seq<u8>> {
        Seq::new(self.messages@.len(), |i: int| self.messages@[i]@)
    }
}

impl SectionPayload {
    /// A section made of the given messages.
    pub fn new(messages: Vec<Vec<u8>>) -> (section: SectionPayload)
        ensures
            section.messages == messages,
    {
        SectionPayload { messages }
    }

    /// The number of messages in the section.
    pub fn message_count(&self) -> (n: usize)
        ensures
            n == self@.len(),
    {
        self.messages.len()
    }

    /// Whether the section holds no message.
    pub fn is_empty(&self) -> (empty: bool)
        ensures
            empty == (self@.len() == 0),
    {
        self.messages.len() == 0
    }
}

impl Default for SectionPayload {
    /// The section without messages.
    fn default() -> (section: SectionPayload)
        ensures
            section@ == Seq::<Seq<u8>>::empty(),
    {
        SectionPayload { messages: Vec::new() }
    }
}

/// What a block carries: one section for each message class.
#[derive(Clone, Debug, PartialEq, Eq)]
pub struct BatchPayload {
    pub ingress: SectionPayload,
    pub self_validating: SectionPayload,
    pub xnet: SectionPayload,
    pub canister_http: SectionPayload,
}

/// The contents of a [`BatchPayload`].
pub struct BatchPayloadView {
    pub ingress: Seq<Seq<u8>>,
    pub self_validating: Seq<Seq<u8>>,
    pub xnet: Seq<Seq<u8>>,
    pub canister_http: Seq<Seq<u8>>,
}

impl BatchPayloadView {
    /// The messages of the given class.
    pub open spec fn section(self, kind: SectionKind) -> Seq<Seq<u8>> {
        match kind {
            SectionKind::Ingress => self.ingress,
            SectionKind::SelfValidating => self.self_validating,
            SectionKind::XNet => self.xnet,
            SectionKind::CanisterHttp => self.canister_http,
        }
    }

    /// This payload with the messages of the given class replaced.
    pub open spec fn with_section(
        self,
        kind: SectionKind,
        section: Seq<Seq<u8>>,
    ) -> BatchPayloadView {
        match kind {
            SectionKind::Ingress => BatchPayloadView { ingress: section, ..self },
            SectionKind::SelfValidating => BatchPayloadView { self_validating: section, ..self },
            SectionKind::XNet => BatchPayloadView { xnet: section, ..self },
            SectionKind::CanisterHttp => BatchPayloadView { canister_http: section, ..self },
        }
    }

    /// The payload in which every section is empty.
    pub open spec fn empty() -> BatchPayloadView {
        BatchPayloadView {
            ingress: Seq::empty(),
            self_validating: Seq::empty(),
            xnet: Seq::empty(),
            canister_http: Seq::empty(),
        }
    }
}

impl View for BatchPayload {
    type V = BatchPayloadView;

    open spec fn view(&self) -> BatchPayloadView {
        BatchPayloadView {
            ingress: self.ingress@,
            self_validating: self.self_validating@,
            xnet: self.xnet@,
            canister_http: self.canister_http@,
        }
    }
}

impl BatchPayload {
    /// Whether no section holds a message.
    pub fn is_empty(&self) -> (empty: bool)
        ensures
            empty == (self@ == BatchPayloadView::empty()),
    {
        let empty = self.ingress.is_empty() && self.self_validating.is_empty()
            && self.xnet.is_empty() && self.canister_http.is_empty();
        proof {
            if empty {
                assert(self@.ingress =~= Seq::<Seq<u8>>::empty());
                assert(self@.self_validating =~= Seq::<Seq<u8>>::empty());
                assert(self@.xnet =~= Seq::<Seq<u8>>::empty());
                assert(self@.canister_http =~= Seq::<Seq<u8>>::empty());
            }
        }
        empty
    }

    /// The section of the given class.
    pub fn section(&self, kind: SectionKind) -> (section: &SectionPayload)
        ensures
            section@ == self@.section(kind),
    {
        match kind {
            SectionKind::Ingress => &self.ingress,
            SectionKind::SelfValidating => &self.self_validating,
            SectionKind::XNet => &self.xnet,
            SectionKind::CanisterHttp => &self.canister_http,
        }
    }

    /// Replaces the section of the given class.
    pub fn set_section(&mut self, kind: SectionKind, section: SectionPayload)
        ensures
            final(self)@ == old(self)@.with_section(kind, section@),
    {
        match kind {
            SectionKind::Ingress => {
                self.ingress = section;
            },
            SectionKind::SelfValidating => {
                self.self_validating = section;
            },
            SectionKind::XNet => {
                self.xnet = section;
            },
            SectionKind::CanisterHttp => {
                self.canister_http = section;
            },
        }
    }

    /// Hands out the messages of the payload, class by class: ingress,
    /// cross-subnet streams, adapter responses, HTTP responses.
    pub fn into_messages(self) -> (messages: (
        Vec<Vec<u8>>,
        Vec<Vec<u8>>,
        Vec<Vec<u8>>,
        Vec<Vec<u8>>,
    ))
        ensures
            messages.0 == self.ingress.messages,
            messages.1 == self.xnet.messages,
            messages.2 == self.self_validating.messages,
            messages.3 == self.canister_http.messages,
    {
        (
            self.ingress.messages,
            self.xnet.messages,
            self.self_validating.messages,
            self.canister_http.messages,
        )
    }
}

impl Default for BatchPayload {
    /// The payload of an empty block.
    fn default() -> (batch: BatchPayload)
        ensures
            batch@ == BatchPayloadView::empty(),
    {
        BatchPayload {
            ingress: SectionPayload::default(),
            self_validating: SectionPayload::default(),
            xnet: SectionPayload::default(),
            canister_http: SectionPayload::default(),
        }
    }
}

/// The payload of a block: a summary block carries no batch, a data block
/// carries one.
#[derive(Clone, Debug, PartialEq, Eq)]
pub enum Payload {
    Summary,
    Data(BatchPayload),
}

/// The contents of a [`Payload`].
pub enum PayloadView {
    Summary,
    Data(BatchPayloadView),
}

impl View for Payload {
    type V = PayloadView;

    open spec fn view(&self) -> PayloadView {
        match self {
            Payload::Summary => PayloadView::Summary,
            Payload::Data(batch) => PayloadView::Data(batch@),
        }
    }
}

impl Payload {
    /// Whether this is the payload of a summary block.
    pub fn is_summary(&self) -> (summary: bool)
        ensures
            summary == (self is Summary),
    {
        match self {
            Payload::Summary => true,
            Payload::Data(_) => false,
        }
    }

    /// The batch of a data block.
    pub fn as_data(&self) -> (batch: &BatchPayload)
        requires
            self is Data,
        ensures
            *self == Payload::Data(*batch),
    {
        match self {
            Payload::Data(batch) => batch,
            Payload::Summary => vstd::pervasive::unreached(),
        }
    }
}

/// The payloads of the blocks above the certified height, as a section
/// source reads them: height, time and contents of each.
pub type PastPayloads = Seq<(Height, Time, PayloadView)>;

/// The contents of a list of past payloads.
pub open spec fn past_view(past_payloads: Seq<(Height, Time, Payload)>) -> PastPayloads {
    Seq::new(
        past_payloads.len(),
        |i: int| (past_payloads[i].0, past_payloads[i].1, past_payloads[i].2@),
    )
}

} // verus!
