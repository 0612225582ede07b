//! The sections of a payload: where their messages come from, and how one
//! section is built and validated under a byte limit.

use vstd::prelude::*;
use crate::metrics::PayloadBuilderMetrics;
use crate::time::Time;
use crate::types::{
    past_view, BatchPayload, BatchPayloadView, Height, NumBytes, PastPayloads, Payload,
    SectionKind, SectionPayload, ValidationContext,
};

verus! {

/// Why the messages of a section are refused.
#[derive(Clone, Copy, Debug, PartialEq, Eq, Structural, Hash)]
pub enum SectionError {
    /// A message occurs twice, in the section or in a past payload.
    DuplicateMessage,
    /// A message cannot be read.
    Malformed,
}

/// A source of the messages of one class.
///
/// What a source offers may differ from call to call: `offers` tells what
/// it may offer. What it says of a given section is fixed by the section,
/// the height, the context and the past payloads: `verdict` names it.
pub trait SectionSource {
    /// Whether a section is valid, and the number of bytes that it then
    /// counts for.
    spec fn verdict(
        &self,
        height: Height,
        section: Seq<Seq<u8>>,
        context: ValidationContext,
        past_payloads: PastPayloads,
    ) -> Result<NumBytes, SectionError>;

    /// Whether the source may offer `section` when it is asked, at
    /// `height` and with `context`, for messages of up to `byte_limit`
    /// bytes that `past_payloads` do not hold.
    spec fn offers(
        &self,
        height: Height,
        context: ValidationContext,
        byte_limit: NumBytes,
        past_payloads: PastPayloads,
        section: Seq<Seq<u8>>,
    ) -> bool;

    /// Offers messages that are not in `past_payloads`, of up to
    /// `byte_limit` bytes in all.
    fn get_section(
        &self,
        height: Height,
        context: &ValidationContext,
        byte_limit: NumBytes,
        past_payloads: &[(Height, Time, Payload)],
    ) -> (section: SectionPayload)
        ensures
            self.offers(height, *context, byte_limit, past_view(past_payloads@), section@),
    ;

    /// Checks the messages of a section, and counts their bytes.
    fn validate_section(
        &self,
        height: Height,
        section: &SectionPayload,
        context: &ValidationContext,
        past_payloads: &[(Height, Time, Payload)],
    ) -> (verdict: Result<NumBytes, SectionError>)
        ensures
            verdict == self.verdict(height, section@, *context, past_view(past_payloads@)),
    ;
}

/// The builder of one section of a payload, with the source of its
/// messages.
pub enum BatchPayloadSectionBuilder<I, S, X, C> {
    Ingress(I),
    SelfValidating(S),
    XNet(X),
    CanisterHttp(C),
}

impl<I: SectionSource, S: SectionSource, X: SectionSource, C: SectionSource>
    BatchPayloadSectionBuilder<I, S, X, C> {
    /// The class of messages that this builder is responsible for.
    pub open spec fn spec_kind(&self) -> SectionKind {
        match self {
            BatchPayloadSectionBuilder::Ingress(_) => SectionKind::Ingress,
            BatchPayloadSectionBuilder::SelfValidating(_) => SectionKind::SelfValidating,
            BatchPayloadSectionBuilder::XNet(_) => SectionKind::XNet,
            BatchPayloadSectionBuilder::CanisterHttp(_) => SectionKind::CanisterHttp,
        }
    }

    /// What the source of this builder says of a section.
    pub open spec fn source_verdict(
        &self,
        height: Height,
        section: Seq<Seq<u8>>,
        context: ValidationContext,
        past_payloads: PastPayloads,
    ) -> Result<NumBytes, SectionError> {
        match self {
            BatchPayloadSectionBuilder::Ingress(source) => source.verdict(
                height,
                section,
                context,
                past_payloads,
            ),
            BatchPayloadSectionBuilder::SelfValidating(source) => source.verdict(
                height,
                section,
                context,
                past_payloads,
            ),
            BatchPayloadSectionBuilder::XNet(source) => source.verdict(
                height,
                section,
                context,
                past_payloads,
            ),
            BatchPayloadSectionBuilder::CanisterHttp(source) => source.verdict(
                height,
                section,
                context,
                past_payloads,
            ),
        }
    }

    /// Whether the source of this builder may offer `section`.
    pub open spec fn source_offers(
        &self,
        height: Height,
        context: ValidationContext,
        byte_limit: NumBytes,
        past_payloads: PastPayloads,
        section: Seq<Seq<u8>>,
    ) -> bool {
        match self {
            BatchPayloadSectionBuilder::Ingress(source) => source.offers(
                height,
                context,
                byte_limit,
                past_payloads,
                section,
            ),
            BatchPayloadSectionBuilder::SelfValidating(source) => source.offers(
                height,
                context,
                byte_limit,
                past_payloads,
                section,
            ),
            BatchPayloadSectionBuilder::XNet(source) => source.offers(
                height,
                context,
                byte_limit,
                past_payloads,
                section,
            ),
            BatchPayloadSectionBuilder::CanisterHttp(source) => source.offers(
                height,
                context,
                byte_limit,
                past_payloads,
                section,
            ),
        }
    }

    /// Whether this builder's section of `batch` is valid, and the number
    /// of bytes that it then counts for. Only this builder's own section
    /// is looked at. A section without messages is valid and counts for
    /// nothing; of any other, the source decides.
    pub open spec fn verdict(
        &self,
        height: Height,
        batch: BatchPayloadView,
        context: ValidationContext,
        past_payloads: PastPayloads,
    ) -> Result<NumBytes, SectionError> {
        let section = batch.section(self.spec_kind());
        if section.len() == 0 {
            Ok(NumBytes(0))
        } else {
            self.source_verdict(height, section, context, past_payloads)
        }
    }

    /// The class of messages that this builder is responsible for.
    #[verifier::when_used_as_spec(spec_kind)]
    pub fn kind(&self) -> (kind: SectionKind)
        ensures
            kind == self.spec_kind(),
    {
        match self {
            BatchPayloadSectionBuilder::Ingress(_) => SectionKind::Ingress,
            BatchPayloadSectionBuilder::SelfValidating(_) => SectionKind::SelfValidating,
            BatchPayloadSectionBuilder::XNet(_) => SectionKind::XNet,
            BatchPayloadSectionBuilder::CanisterHttp(_) => SectionKind::CanisterHttp,
        }
    }

    /// Asks the source for messages of up to `byte_limit` bytes.
    fn offer(
        &self,
        height: Height,
        context: &ValidationContext,
        byte_limit: NumBytes,
        past_payloads: &[(Height, Time, Payload)],
    ) -> (section: SectionPayload)
        ensures
            self.source_offers(
                height,
                *context,
                byte_limit,
                past_view(past_payloads@),
                section@,
            ),
    {
        match self {
            BatchPayloadSectionBuilder::Ingress(source) => source.get_section(
                height,
                context,
                byte_limit,
                past_payloads,
            ),
            BatchPayloadSectionBuilder::SelfValidating(source) => source.get_section(
                height,
                context,
                byte_limit,
                past_payloads,
            ),
            BatchPayloadSectionBuilder::XNet(source) => source.get_section(
                height,
                context,
                byte_limit,
                past_payloads,
            ),
            BatchPayloadSectionBuilder::CanisterHttp(source) => source.get_section(
                height,
                context,
                byte_limit,
                past_payloads,
            ),
        }
    }

    /// Asks the source what it says of a section.
    fn check(
        &self,
        height: Height,
        section: &SectionPayload,
        context: &ValidationContext,
        past_payloads: &[(Height, Time, Payload)],
    ) -> (verdict: Result<NumBytes, SectionError>)
        ensures
            verdict == self.source_verdict(
                height,
                section@,
                *context,
                past_view(past_payloads@),
            ),
    {
        match self {
            BatchPayloadSectionBuilder::Ingress(source) => source.validate_section(
                height,
                section,
                context,
                past_payloads,
            ),
            BatchPayloadSectionBuilder::SelfValidating(source) => source.validate_section(
                height,
                section,
                context,
                past_payloads,
            ),
            BatchPayloadSectionBuilder::XNet(source) => source.validate_section(
                height,
                section,
                context,
                past_payloads,
            ),
            BatchPayloadSectionBuilder::CanisterHttp(source) => source.validate_section(
                height,
                section,
                context,
                past_payloads,
            ),
        }
    }

    /// What this builder takes of the messages that its source offered,
    /// and the number of bytes that they count for. An offer without
    /// messages is taken as it is and counts for nothing. Any other offer
    /// is taken where the source finds it valid and it counts for at most
    /// `max_size` bytes; else it is dropped, and nothing is taken.
    pub open spec fn accepted(
        &self,
        height: Height,
        offered: Seq<Seq<u8>>,
        context: ValidationContext,
        past_payloads: PastPayloads,
        max_size: NumBytes,
    ) -> (Seq<Seq<u8>>, NumBytes) {
        if self.drops(height, offered, context, past_payloads, max_size) {
            (Seq::empty(), NumBytes(0))
        } else if offered.len() == 0 {
            (offered, NumBytes(0))
        } else {
            (offered, self.source_verdict(height, offered, context, past_payloads)->Ok_0)
        }
    }

    /// Whether this builder drops what its source offered: it does where
    /// the offer holds messages, and is not valid or counts for more than
    /// `max_size` bytes.
    pub open spec fn drops(
        &self,
        height: Height,
        offered: Seq<Seq<u8>>,
        context: ValidationContext,
        past_payloads: PastPayloads,
        max_size: NumBytes,
    ) -> bool {
        offered.len() > 0 && match self.source_verdict(height, offered, context, past_payloads) {
            Ok(size) => size.0 > max_size.0,
            Err(_) => true,
        }
    }

    /// Whether a payload, a number of bytes and a state of the counters
    /// are what this builder makes of an offer of its source: the payload
    /// is the one before with this builder's section replaced by what is
    /// accepted of the offer, and an offer that is dropped is counted as a
    /// fault.
    pub open spec fn makes_of(
        &self,
        height: Height,
        offered: Seq<Seq<u8>>,
        context: ValidationContext,
        past_payloads: PastPayloads,
        max_size: NumBytes,
        before: (BatchPayloadView, PayloadBuilderMetrics),
        after: (BatchPayloadView, PayloadBuilderMetrics),
        used: NumBytes,
    ) -> bool {
        let accepted = self.accepted(height, offered, context, past_payloads, max_size);
        &&& after.0 == before.0.with_section(self.spec_kind(), accepted.0)
        &&& used == accepted.1
        &&& after.1 == if self.drops(height, offered, context, past_payloads, max_size) {
            before.1.with_validation_fault()
        } else {
            before.1
        }
    }

    /// What is accepted of an offer is valid, and counts for the bytes
    /// that are taken as used, which are at most `max_size`.
    pub proof fn lemma_accepted_is_valid(
        &self,
        height: Height,
        offered: Seq<Seq<u8>>,
        context: ValidationContext,
        past_payloads: PastPayloads,
        max_size: NumBytes,
        batch: BatchPayloadView,
    )
        ensures
            self.accepted(height, offered, context, past_payloads, max_size).1.0 <= max_size.0,
            self.verdict(
                height,
                batch.with_section(
                    self.spec_kind(),
                    self.accepted(height, offered, context, past_payloads, max_size).0,
                ),
                context,
                past_payloads,
            ) == Ok::<NumBytes, SectionError>(
                self.accepted(height, offered, context, past_payloads, max_size).1,
            ),
    {
    }

    /// Puts into this builder's section of `payload` what is accepted of
    /// the messages that the source offered, and returns the number of
    /// bytes used. An offer that is dropped is counted in `metrics`. No
    /// other section of `payload` is touched.
    pub fn take_offer(
        &self,
        payload: &mut BatchPayload,
        offered: SectionPayload,
        height: Height,
        context: &ValidationContext,
        max_size: NumBytes,
        past_payloads: &[(Height, Time, Payload)],
        metrics: &mut PayloadBuilderMetrics,
    ) -> (used: NumBytes)
        ensures
            self.makes_of(
                height,
                offered@,
                *context,
                past_view(past_payloads@),
                max_size,
                (old(payload)@, *old(metrics)),
                (final(payload)@, *final(metrics)),
                used,
            ),
    {
        if offered.is_empty() {
            payload.set_section(self.kind(), offered);
            return NumBytes::new(0);
        }
        match self.check(height, &offered, context, past_payloads) {
            Ok(size) => {
                if size.get() <= max_size.get() {
                    payload.set_section(self.kind(), offered);
                    return size;
                }
            },
            Err(_) => {},
        }
        metrics.count_validation_fault();
        let nothing = SectionPayload::default();
        payload.set_section(self.kind(), nothing);
        NumBytes::new(0)
    }

    /// Fills this builder's section of `payload` with messages of at most
    /// `max_size` bytes, and returns the number of bytes used.
    ///
    /// The source is asked, at `height` and with `context`, for messages of
    /// at most `max_size` bytes, given the past payloads as they are. What
    /// it offers is validated before it is taken.
    /// An offer that is not valid, or counts for more than `max_size`
    /// bytes, is dropped: the section is then left empty, nothing is used,
    /// and the fault is counted in `metrics`. No other section of
    /// `payload` is touched. Whatever the source offers, the section is
    /// valid afterwards and counts for the bytes used.
    pub fn build_payload(
        &self,
        payload: &mut BatchPayload,
        height: Height,
        context: &ValidationContext,
        max_size: NumBytes,
        past_payloads: &[(Height, Time, Payload)],
        metrics: &mut PayloadBuilderMetrics,
    ) -> (used: NumBytes)
        ensures
            exists|offered: Seq<Seq<u8>>|
                self.source_offers(height, *context, max_size, past_view(past_payloads@), offered)
                    && #[trigger] self.makes_of(
                    height,
                    offered,
                    *context,
                    past_view(past_payloads@),
                    max_size,
                    (old(payload)@, *old(metrics)),
                    (final(payload)@, *final(metrics)),
                    used,
                ),
            used.0 <= max_size.0,
            self.verdict(height, final(payload)@, *context, past_view(past_payloads@)) == Ok::<
                NumBytes,
                SectionError,
            >(used),
            forall|other: SectionKind|
                other != self.spec_kind() ==> final(payload)@.section(other) == old(
                    payload,
                )@.section(other),
    {
        let offered = self.offer(height, context, max_size, past_payloads);
        proof {
            self.lemma_accepted_is_valid(
                height,
                offered@,
                *context,
                past_view(past_payloads@),
                max_size,
                payload@,
            );
        }
        self.take_offer(payload, offered, height, context, max_size, past_payloads, metrics)
    }

    /// Validates this builder's section of `payload`, and returns the
    /// number of bytes that it counts for.
    pub fn validate_payload(
        &self,
        height: Height,
        payload: &BatchPayload,
        context: &ValidationContext,
        past_payloads: &[(Height, Time, Payload)],
    ) -> (verdict: Result<NumBytes, SectionError>)
        ensures
            verdict == self.verdict(height, payload@, *context, past_view(past_payloads@)),
    {
        let section = payload.section(self.kind());
        if section.is_empty() {
            Ok(NumBytes::new(0))
        } else {
            self.check(height, section, context, past_payloads)
        }
    }
}

} // verus!
