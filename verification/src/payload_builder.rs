//! Building the payload of a block, and validating the payload of a block
//! that another replica proposed.

use vstd::prelude::*;
use crate::budget::{
    max_block_payload_size, needs_clamp, resolve_payload_size, MAX_BITCOIN_BLOCK_SIZE,
    MAX_XNET_PAYLOAD_IN_BYTES,
};
use crate::metrics::PayloadBuilderMetrics;
use crate::registry::{RegistryClient, RegistryError};
use crate::laws::{
    lemma_build_within_size, lemma_filled_counts_dropped_offers, lemma_filled_upto_within_size,
};
use crate::rotation::{
    fixed_order, lemma_rotated_order_is_permutation, rotate_sections, rotated_order, section_ids,
};
use crate::section::{BatchPayloadSectionBuilder, SectionError, SectionSource};
use crate::time::{current_time, is_clock_reading, Time};
use crate::types::{
    past_view, BatchPayload, BatchPayloadView, Height, NumBytes, PastPayloads, Payload,
    PayloadView, RegistryVersion, SectionKind, SubnetId, SubnetRecord, SubnetRecords,
    ValidationContext,
};

verus! {

/// A reason to reject a payload for good.
#[derive(Clone, Copy, Debug, PartialEq, Eq, Structural, Hash)]
pub enum PayloadPermanentError {
    /// A section of the payload is not valid.
    SectionInvalid { section: SectionKind, error: SectionError },
    /// The sections count for more bytes than a payload may have.
    PayloadTooBig { expected: NumBytes, received: NumBytes },
}

/// A reason for which a payload cannot be judged now, and may be judged
/// later.
#[derive(Clone, Copy, Debug, PartialEq, Eq, Structural, Hash)]
pub enum PayloadTransientError {
    /// The registry holds no record of the subnet at this version.
    SubnetNotFound(SubnetId, RegistryVersion),
    /// The registry cannot be read at the version of the context.
    RegistryUnavailable,
}

/// An error of a validation: one that rejects for good, or one after which
/// the validation may be tried again.
#[derive(Clone, Copy, Debug, PartialEq, Eq, Hash)]
pub enum ValidationError<P, T> {
    Permanent(P),
    Transient(T),
}

/// The errors of the validation of a payload.
pub type PayloadValidationError = ValidationError<PayloadPermanentError, PayloadTransientError>;

/// The outcome of a validation.
pub type ValidationResult<E> = Result<(), E>;

/// The section builders of a payload builder, in their fixed order.
pub type Sections<I, S, X, C> = Seq<BatchPayloadSectionBuilder<I, S, X, C>>;

/// A byte count that stops at the largest `u64`.
pub open spec fn saturated(total: int) -> u64 {
    if total > u64::MAX {
        u64::MAX
    } else if total < 0 {
        0
    } else {
        total as u64
    }
}

/// No two of the builders are responsible for the same class of messages.
pub open spec fn kinds_distinct<
    I: SectionSource,
    S: SectionSource,
    X: SectionSource,
    C: SectionSource,
>(builders: Sections<I, S, X, C>) -> bool {
    forall|i: int, j: int|
        0 <= i < builders.len() && 0 <= j < builders.len() && i != j
            ==> #[trigger] builders[i].spec_kind() != #[trigger] builders[j].spec_kind()
}

/// The bytes that the first `count` sections of `batch` count for
/// together, where each of them is valid.
pub open spec fn sections_size_upto<
    I: SectionSource,
    S: SectionSource,
    X: SectionSource,
    C: SectionSource,
>(
    builders: Sections<I, S, X, C>,
    height: Height,
    batch: BatchPayloadView,
    context: ValidationContext,
    past_payloads: PastPayloads,
    count: nat,
) -> Option<nat>
    decreases count,
{
    if count == 0 {
        Some(0nat)
    } else {
        match (
            sections_size_upto(
                builders,
                height,
                batch,
                context,
                past_payloads,
                (count - 1) as nat,
            ),
            builders[count - 1].verdict(height, batch, context, past_payloads),
        ) {
            (Some(rest), Ok(size)) => Some(rest + size.0 as nat),
            _ => None,
        }
    }
}

/// The bytes that the sections of `batch` count for together, where each
/// of them is valid.
pub open spec fn sections_size<
    I: SectionSource,
    S: SectionSource,
    X: SectionSource,
    C: SectionSource,
>(
    builders: Sections<I, S, X, C>,
    height: Height,
    batch: BatchPayloadView,
    context: ValidationContext,
    past_payloads: PastPayloads,
) -> Option<nat> {
    sections_size_upto(builders, height, batch, context, past_payloads, builders.len())
}

/// The outcome of validating the sections of `batch` from section `next`
/// on, when the sections before it count for `accumulated` bytes.
///
/// The sections are taken in their fixed order. The first section that is
/// not valid ends the validation with its error. After each valid section
/// the bytes counted so far are held against `max_size`; once they exceed
/// it, the validation ends with `PayloadTooBig`, and no later section is
/// looked at.
pub open spec fn validated_from<
    I: SectionSource,
    S: SectionSource,
    X: SectionSource,
    C: SectionSource,
>(
    builders: Sections<I, S, X, C>,
    height: Height,
    batch: BatchPayloadView,
    context: ValidationContext,
    past_payloads: PastPayloads,
    max_size: NumBytes,
    next: int,
    accumulated: int,
) -> ValidationResult<PayloadValidationError>
    decreases builders.len() - next,
{
    if next < 0 || next >= builders.len() {
        Ok(())
    } else {
        match builders[next].verdict(height, batch, context, past_payloads) {
            Err(error) => Err(
                ValidationError::Permanent(
                    PayloadPermanentError::SectionInvalid {
                        section: builders[next].spec_kind(),
                        error,
                    },
                ),
            ),
            Ok(size) => {
                if accumulated + size.0 > max_size.0 {
                    Err(
                        ValidationError::Permanent(
                            PayloadPermanentError::PayloadTooBig {
                                expected: max_size,
                                received: NumBytes(saturated(accumulated + size.0)),
                            },
                        ),
                    )
                } else {
                    validated_from(
                        builders,
                        height,
                        batch,
                        context,
                        past_payloads,
                        max_size,
                        next + 1,
                        accumulated + size.0,
                    )
                }
            },
        }
    }
}

/// The outcome of validating `batch` against a payload size of `max_size`.
pub open spec fn batch_verdict<
    I: SectionSource,
    S: SectionSource,
    X: SectionSource,
    C: SectionSource,
>(
    builders: Sections<I, S, X, C>,
    height: Height,
    batch: BatchPayloadView,
    context: ValidationContext,
    past_payloads: PastPayloads,
    max_size: NumBytes,
) -> ValidationResult<PayloadValidationError> {
    validated_from(builders, height, batch, context, past_payloads, max_size, 0, 0)
}

/// The subnet record that a lookup in the registry gave, or the error that
/// stands for its failure. Both failures are transient.
pub open spec fn subnet_record_or_error(
    subnet_id: SubnetId,
    version: RegistryVersion,
    lookup: Result<SubnetRecord, RegistryError>,
) -> Result<SubnetRecord, PayloadValidationError> {
    match lookup {
        Ok(record) => Ok(record),
        Err(RegistryError::NotFound) => Err(
            ValidationError::Transient(PayloadTransientError::SubnetNotFound(subnet_id, version)),
        ),
        Err(RegistryError::Unavailable) => Err(
            ValidationError::Transient(PayloadTransientError::RegistryUnavailable),
        ),
    }
}

/// The outcome of validating `payload`, given what became of the lookup of
/// the subnet record. The payload of a summary block is valid whatever the
/// rest. A data block whose subnet record cannot be had is not judged. Any
/// other is held against the payload size that its subnet record allows.
pub open spec fn payload_verdict<
    I: SectionSource,
    S: SectionSource,
    X: SectionSource,
    C: SectionSource,
>(
    builders: Sections<I, S, X, C>,
    height: Height,
    payload: PayloadView,
    context: ValidationContext,
    past_payloads: PastPayloads,
    record: Result<SubnetRecord, PayloadValidationError>,
) -> ValidationResult<PayloadValidationError> {
    match payload {
        PayloadView::Summary => Ok(()),
        PayloadView::Data(batch) => match record {
            Err(error) => Err(error),
            Ok(record) => batch_verdict(
                builders,
                height,
                batch,
                context,
                past_payloads,
                NumBytes(max_block_payload_size(record)),
            ),
        },
    }
}

/// Whether the validation of `payload` resolves a payload size from a
/// subnet record that allows too little: it does for a data block whose
/// subnet record is there and misconfigured.
pub open spec fn resolves_misconfigured(
    payload: PayloadView,
    record: Result<SubnetRecord, PayloadValidationError>,
) -> bool {
    payload is Data && record is Ok && needs_clamp(record->Ok_0)
}

/// How the counters of a builder stand after a payload size was resolved:
/// where the subnet record allowed too little, the fault was reported to
/// the alarm at some time; else nothing was counted.
pub open spec fn counted_after_resolution(
    before: PayloadBuilderMetrics,
    after: PayloadBuilderMetrics,
    misconfigured: bool,
) -> bool {
    if misconfigured {
        exists|now: Time| after == #[trigger] before.with_subnet_record_issue(now)
    } else {
        after == before
    }
}

/// Turns the outcome of a lookup in the registry into a subnet record or a
/// validation error.
pub fn subnet_record_from_lookup(
    subnet_id: SubnetId,
    version: RegistryVersion,
    lookup: Result<SubnetRecord, RegistryError>,
) -> (record: Result<SubnetRecord, PayloadValidationError>)
    ensures
        record == subnet_record_or_error(subnet_id, version, lookup),
{
    match lookup {
        Ok(record) => Ok(record),
        Err(RegistryError::NotFound) => Err(
            ValidationError::Transient(PayloadTransientError::SubnetNotFound(subnet_id, version)),
        ),
        Err(RegistryError::Unavailable) => Err(
            ValidationError::Transient(PayloadTransientError::RegistryUnavailable),
        ),
    }
}

/// The payload, the bytes used and the counters once the first `count`
/// sections of `order` are filled, given what the source of each offered.
///
/// The sections are filled in the order `order`, into a payload that is
/// empty at first. The builder of each section is given what the sections
/// before it have left of `max_size`, and takes of its offer what
/// `accepted` says. `offers` holds the offers in the order in which the
/// sections are filled.
pub open spec fn filled_upto<
    I: SectionSource,
    S: SectionSource,
    X: SectionSource,
    C: SectionSource,
>(
    builders: Sections<I, S, X, C>,
    height: Height,
    context: ValidationContext,
    past_payloads: PastPayloads,
    max_size: NumBytes,
    order: Seq<usize>,
    offers: Seq<Seq<Seq<u8>>>,
    counted: PayloadBuilderMetrics,
    count: nat,
) -> (BatchPayloadView, nat, PayloadBuilderMetrics)
    decreases count,
{
    if count == 0 {
        (BatchPayloadView::empty(), 0nat, counted)
    } else {
        let before = filled_upto(
            builders,
            height,
            context,
            past_payloads,
            max_size,
            order,
            offers,
            counted,
            (count - 1) as nat,
        );
        let builder = builders[order[count - 1] as int];
        let left = NumBytes(saturated(max_size.0 - before.1));
        let offered = offers[count - 1];
        (
            before.0.with_section(
                builder.spec_kind(),
                builder.accepted(height, offered, context, past_payloads, left).0,
            ),
            before.1 + builder.accepted(height, offered, context, past_payloads, left).1.0 as nat,
            if builder.drops(height, offered, context, past_payloads, left) {
                before.2.with_validation_fault()
            } else {
                before.2
            },
        )
    }
}

/// Whether the source of each of the first `count` sections of `order`
/// may offer what `offers` holds for it, when it is asked for messages of
/// as many bytes as the sections before it have left of `max_size`.
pub open spec fn offered_upto<
    I: SectionSource,
    S: SectionSource,
    X: SectionSource,
    C: SectionSource,
>(
    builders: Sections<I, S, X, C>,
    height: Height,
    context: ValidationContext,
    past_payloads: PastPayloads,
    max_size: NumBytes,
    order: Seq<usize>,
    offers: Seq<Seq<Seq<u8>>>,
    counted: PayloadBuilderMetrics,
    count: nat,
) -> bool
    decreases count,
{
    count == 0 || {
        let before = filled_upto(
            builders,
            height,
            context,
            past_payloads,
            max_size,
            order,
            offers,
            counted,
            (count - 1) as nat,
        );
        &&& offered_upto(
            builders,
            height,
            context,
            past_payloads,
            max_size,
            order,
            offers,
            counted,
            (count - 1) as nat,
        )
        &&& builders[order[count - 1] as int].source_offers(
            height,
            context,
            NumBytes(saturated(max_size.0 - before.1)),
            past_payloads,
            offers[count - 1],
        )
    }
}

/// Whether `offers` holds, for each section in the order in which the
/// sections are filled at `height`, what the source of the section may
/// offer when it is asked for what is left of `max_size`.
pub open spec fn offered<I: SectionSource, S: SectionSource, X: SectionSource, C: SectionSource>(
    builders: Sections<I, S, X, C>,
    height: Height,
    context: ValidationContext,
    past_payloads: PastPayloads,
    max_size: NumBytes,
    offers: Seq<Seq<Seq<u8>>>,
    counted: PayloadBuilderMetrics,
) -> bool {
    &&& offers.len() == builders.len()
    &&& offered_upto(
        builders,
        height,
        context,
        past_payloads,
        max_size,
        rotated_order(fixed_order(builders.len()), height),
        offers,
        counted,
        builders.len(),
    )
}

/// The payload, the bytes used and the counters once all sections are
/// filled at `height`, in the order that is rotated by the height, given
/// what the source of each offered.
pub open spec fn filled<I: SectionSource, S: SectionSource, X: SectionSource, C: SectionSource>(
    builders: Sections<I, S, X, C>,
    height: Height,
    context: ValidationContext,
    past_payloads: PastPayloads,
    max_size: NumBytes,
    offers: Seq<Seq<Seq<u8>>>,
    counted: PayloadBuilderMetrics,
) -> (BatchPayloadView, nat, PayloadBuilderMetrics) {
    filled_upto(
        builders,
        height,
        context,
        past_payloads,
        max_size,
        rotated_order(fixed_order(builders.len()), height),
        offers,
        counted,
        builders.len(),
    )
}

/// What is filled of the first sections does not depend on what the
/// later ones are offered.
pub proof fn lemma_filled_upto_prefix<
    I: SectionSource,
    S: SectionSource,
    X: SectionSource,
    C: SectionSource,
>(
    builders: Sections<I, S, X, C>,
    height: Height,
    context: ValidationContext,
    past_payloads: PastPayloads,
    max_size: NumBytes,
    order: Seq<usize>,
    offers: Seq<Seq<Seq<u8>>>,
    more: Seq<Seq<Seq<u8>>>,
    counted: PayloadBuilderMetrics,
    count: nat,
)
    requires
        count <= offers.len() <= more.len(),
        forall|i: int| 0 <= i < offers.len() ==> more[i] == offers[i],
    ensures
        filled_upto(builders, height, context, past_payloads, max_size, order, more, counted, count)
            == filled_upto(
            builders,
            height,
            context,
            past_payloads,
            max_size,
            order,
            offers,
            counted,
            count,
        ),
        offered_upto(builders, height, context, past_payloads, max_size, order, more, counted, count)
            == offered_upto(
            builders,
            height,
            context,
            past_payloads,
            max_size,
            order,
            offers,
            counted,
            count,
        ),
    decreases count,
{
    if count > 0 {
        lemma_filled_upto_prefix(
            builders,
            height,
            context,
            past_payloads,
            max_size,
            order,
            offers,
            more,
            counted,
            (count - 1) as nat,
        );
    }
}

/// The sections of a payload builder: one for each class of messages, in
/// the order ingress, adapter responses, cross-subnet streams, HTTP
/// responses.
pub open spec fn sections_well_formed<
    I: SectionSource,
    S: SectionSource,
    X: SectionSource,
    C: SectionSource,
>(builders: Sections<I, S, X, C>) -> bool {
    &&& builders.len() == 4
    &&& builders[0] is Ingress
    &&& builders[1] is SelfValidating
    &&& builders[2] is XNet
    &&& builders[3] is CanisterHttp
}

/// The nanoseconds that have passed since `start`, as the system clock
/// shows them: none where the clock was set back meanwhile.
fn nanos_since(start: Time) -> (nanos: u64)
    ensures
        exists|now: Time| is_clock_reading(now) && nanos == #[trigger] nanos_between(start, now),
{
    let now = current_time();
    nanos_from(start, now)
}

/// The nanoseconds from `start` to `now`: none where `now` lies before
/// `start`.
pub open spec fn nanos_between(start: Time, now: Time) -> u64 {
    if now@ >= start@ {
        (now@ - start@) as u64
    } else {
        0
    }
}

/// Counts the nanoseconds from `start` to `now`.
fn nanos_from(start: Time, now: Time) -> (nanos: u64)
    ensures
        nanos == nanos_between(start, now),
{
    let start = start.as_nanos_since_unix_epoch();
    let now = now.as_nanos_since_unix_epoch();
    if now >= start {
        now - start
    } else {
        0
    }
}

/// Builds the payloads of new blocks and validates the payloads of
/// proposed blocks.
pub trait PayloadBuilder {
    /// Produces a payload that is valid given `past_payloads` and `context`.
    ///
    /// `past_payloads` holds the payloads of all blocks above the certified
    /// height of `context`, in descending order of height.
    fn get_payload(
        &mut self,
        height: Height,
        past_payloads: &[(Height, Time, Payload)],
        context: &ValidationContext,
        subnet_records: &SubnetRecords,
    ) -> BatchPayload;

    /// Checks whether `payload` is valid given `past_payloads` and
    /// `context`. The payload of a summary block always is.
    ///
    /// `past_payloads` holds the payloads of all blocks above the certified
    /// height of `context`, in descending order of height.
    fn validate_payload(
        &mut self,
        height: Height,
        payload: &Payload,
        past_payloads: &[(Height, Time, Payload)],
        context: &ValidationContext,
    ) -> (verdict: ValidationResult<PayloadValidationError>)
        ensures
            payload is Summary ==> verdict is Ok,
    ;
}

/// The payload builder of a replica.
pub struct PayloadBuilderImpl<
    R: RegistryClient,
    I: SectionSource,
    S: SectionSource,
    X: SectionSource,
    C: SectionSource,
> {
    subnet_id: SubnetId,
    registry_client: R,
    section_builder: Vec<BatchPayloadSectionBuilder<I, S, X, C>>,
    metrics: PayloadBuilderMetrics,
}

impl<
    R: RegistryClient,
    I: SectionSource,
    S: SectionSource,
    X: SectionSource,
    C: SectionSource,
> PayloadBuilderImpl<R, I, S, X, C> {
    #[verifier::type_invariant]
    spec fn sections_in_order(&self) -> bool {
        sections_well_formed(self.section_builder@)
    }

    /// The section builders, in their fixed order.
    pub closed spec fn sections(&self) -> Sections<I, S, X, C> {
        self.section_builder@
    }

    /// The subnet that this builder works for.
    pub closed spec fn subnet(&self) -> SubnetId {
        self.subnet_id
    }

    /// The registry that this builder reads.
    pub closed spec fn registry(&self) -> R {
        self.registry_client
    }

    /// What this builder has counted.
    pub closed spec fn counted(&self) -> PayloadBuilderMetrics {
        self.metrics
    }

    /// Whether `later` is this builder after some work: the same subnet,
    /// registry and sections.
    pub open spec fn same_builder(&self, later: &Self) -> bool {
        &&& later.sections() == self.sections()
        &&& later.subnet() == self.subnet()
        &&& later.registry() == self.registry()
    }

    /// Makes a payload builder for the subnet `subnet_id` from the registry
    /// and the sources of the four classes of messages.
    pub fn new(
        subnet_id: SubnetId,
        registry_client: R,
        ingress_selector: I,
        xnet_payload_builder: X,
        self_validating_payload_builder: S,
        canister_http_payload_builder: C,
    ) -> (builder: Self)
        ensures
            builder.subnet() == subnet_id,
            builder.registry() == registry_client,
            builder.sections() == seq![
                BatchPayloadSectionBuilder::<I, S, X, C>::Ingress(ingress_selector),
                BatchPayloadSectionBuilder::<I, S, X, C>::SelfValidating(
                    self_validating_payload_builder,
                ),
                BatchPayloadSectionBuilder::<I, S, X, C>::XNet(xnet_payload_builder),
                BatchPayloadSectionBuilder::<I, S, X, C>::CanisterHttp(
                    canister_http_payload_builder,
                ),
            ],
            sections_well_formed(builder.sections()),
            builder.counted() == PayloadBuilderMetrics::zero(),
    {
        let mut section_builder: Vec<BatchPayloadSectionBuilder<I, S, X, C>> = Vec::new();
        section_builder.push(BatchPayloadSectionBuilder::Ingress(ingress_selector));
        section_builder.push(
            BatchPayloadSectionBuilder::SelfValidating(self_validating_payload_builder),
        );
        section_builder.push(BatchPayloadSectionBuilder::XNet(xnet_payload_builder));
        section_builder.push(
            BatchPayloadSectionBuilder::CanisterHttp(canister_http_payload_builder),
        );
        assert(section_builder@ =~= seq![
            BatchPayloadSectionBuilder::<I, S, X, C>::Ingress(ingress_selector),
            BatchPayloadSectionBuilder::<I, S, X, C>::SelfValidating(
                self_validating_payload_builder,
            ),
            BatchPayloadSectionBuilder::<I, S, X, C>::XNet(xnet_payload_builder),
            BatchPayloadSectionBuilder::<I, S, X, C>::CanisterHttp(canister_http_payload_builder),
        ]);
        Self { subnet_id, registry_client, section_builder, metrics: PayloadBuilderMetrics::new() }
    }

    /// Fetches the subnet record at the registry version of `context`: the
    /// registry is asked for the record of this builder's subnet at that
    /// version. Whatever the registry answers, the outcome is what
    /// `subnet_record_or_error` makes of the answer.
    pub fn get_subnet_record(&self, context: &ValidationContext) -> (record: Result<
        SubnetRecord,
        PayloadValidationError,
    >)
        ensures
            exists|lookup: Result<SubnetRecord, RegistryError>|
                self.registry().answers(self.subnet(), context.registry_version, lookup) && record
                    == #[trigger] subnet_record_or_error(
                    self.subnet(),
                    context.registry_version,
                    lookup,
                ),
    {
        let lookup = self.registry_client.get_subnet_record(
            self.subnet_id,
            context.registry_version,
        );
        let record = subnet_record_from_lookup(self.subnet_id, context.registry_version, lookup);
        assert(record == subnet_record_or_error(self.subnet(), context.registry_version, lookup));
        record
    }

    /// Returns the size that a block payload may have under
    /// `subnet_record`. A record that allows less than the protocol needs
    /// does not fail the call: the size is raised to the required minimum,
    /// and the fault is reported to the alarm, at the time that the system
    /// clock shows.
    pub fn get_max_block_payload_size_bytes(&mut self, subnet_record: &SubnetRecord) -> (size:
        NumBytes)
        ensures
            size.0 == max_block_payload_size(*subnet_record),
            old(self).same_builder(final(self)),
            counted_after_resolution(
                old(self).counted(),
                final(self).counted(),
                needs_clamp(*subnet_record),
            ),
    {
        let (size, clamped) = resolve_payload_size(
            NumBytes::new(MAX_BITCOIN_BLOCK_SIZE),
            NumBytes::new(MAX_XNET_PAYLOAD_IN_BYTES),
            subnet_record,
        );
        if clamped {
            proof {
                use_type_invariant(&*self);
            }
            let now = current_time();
            let mut metrics = self.metrics;
            metrics.report_subnet_record_issue(now);
            self.metrics = metrics;
            assert(self.counted() == old(self).counted().with_subnet_record_issue(now));
        }
        size
    }

    /// Fills a fresh payload with sections of at most `max_size` bytes in
    /// all, and returns it with the number of bytes used.
    ///
    /// The sections are filled in the order that is rotated by `height`.
    /// Each section is given what the sections before it left of
    /// `max_size`.
    pub fn build_sections(
        &mut self,
        height: Height,
        past_payloads: &[(Height, Time, Payload)],
        context: &ValidationContext,
        max_size: NumBytes,
    ) -> (built: (BatchPayload, NumBytes))
        ensures
            old(self).same_builder(final(self)),
            exists|offers: Seq<Seq<Seq<u8>>>|
                offered(
                    old(self).sections(),
                    height,
                    *context,
                    past_view(past_payloads@),
                    max_size,
                    offers,
                    old(self).counted(),
                ) && #[trigger] filled(
                    old(self).sections(),
                    height,
                    *context,
                    past_view(past_payloads@),
                    max_size,
                    offers,
                    old(self).counted(),
                ) == (built.0@, built.1.0 as nat, final(self).counted()),
            built.1.0 <= max_size.0,
            sections_size(
                final(self).sections(),
                height,
                built.0@,
                *context,
                past_view(past_payloads@),
            ) == Some(built.1.0 as nat),
            final(self).counted() == old(self).counted().with_validation_faults(
                final(self).counted().critical_error_validation_not_passed,
            ),
            final(self).counted().critical_error_validation_not_passed >= old(
                self,
            ).counted().critical_error_validation_not_passed,
    {
        proof {
            use_type_invariant(&*self);
        }
        let num_sections = self.section_builder.len();
        let section_select = rotate_sections(&section_ids(num_sections), height);
        let mut batch_payload = BatchPayload::default();
        let mut accumulated_size: u64 = 0;
        let mut metrics = self.metrics;
        let ghost builders = self.section_builder@;
        let ghost past = past_view(past_payloads@);
        let ghost mut offers: Seq<Seq<Seq<u8>>> = Seq::empty();
        let ghost counted = self.metrics;
        let mut i: usize = 0;
        while i < num_sections
            invariant
                i <= num_sections,
                num_sections == builders.len(),
                builders == self.section_builder@,
                sections_well_formed(builders),
                past == past_view(past_payloads@),
                section_select@ == rotated_order(fixed_order(num_sections as nat), height),
                offers.len() == i,
                offered_upto(
                    builders,
                    height,
                    *context,
                    past,
                    max_size,
                    section_select@,
                    offers,
                    counted,
                    i as nat,
                ),
                filled_upto(
                    builders,
                    height,
                    *context,
                    past,
                    max_size,
                    section_select@,
                    offers,
                    counted,
                    i as nat,
                ) == (batch_payload@, accumulated_size as nat, metrics),
            decreases num_sections - i,
        {
            proof {
                lemma_rotated_order_is_permutation(num_sections as nat, height);
                lemma_filled_upto_within_size(
                    builders,
                    height,
                    *context,
                    past,
                    max_size,
                    section_select@,
                    offers,
                    counted,
                    i as nat,
                );
            }
            let section_id: usize = section_select[i];
            let ghost before = (batch_payload@, metrics);
            let left = max_size.saturating_sub(NumBytes::new(accumulated_size));
            let used = self.section_builder[section_id].build_payload(
                &mut batch_payload,
                height,
                context,
                left,
                past_payloads,
                &mut metrics,
            );
            proof {
                let builder = builders[section_id as int];
                let offered = choose|offered: Seq<Seq<u8>>|
                    builder.source_offers(height, *context, left, past, offered)
                        && #[trigger] builder.makes_of(
                        height,
                        offered,
                        *context,
                        past,
                        left,
                        before,
                        (batch_payload@, metrics),
                        used,
                    );
                lemma_filled_upto_prefix(
                    builders,
                    height,
                    *context,
                    past,
                    max_size,
                    section_select@,
                    offers,
                    offers.push(offered),
                    counted,
                    i as nat,
                );
                offers = offers.push(offered);
            }
            accumulated_size = accumulated_size + used.get();
            i = i + 1;
        }
        proof {
            lemma_build_within_size(builders, height, *context, past, max_size, offers, counted);
            lemma_filled_counts_dropped_offers(
                builders,
                height,
                *context,
                past,
                max_size,
                section_select@,
                offers,
                counted,
                num_sections as nat,
            );
        }
        self.metrics = metrics;
        assert(offered(
            old(self).sections(),
            height,
            *context,
            past_view(past_payloads@),
            max_size,
            offers,
            old(self).counted(),
        ) && filled(
            old(self).sections(),
            height,
            *context,
            past_view(past_payloads@),
            max_size,
            offers,
            old(self).counted(),
        ) == (batch_payload@, accumulated_size as nat, self.counted()));
        (batch_payload, NumBytes::new(accumulated_size))
    }

    /// Validates the sections of `batch` against a payload size of
    /// `max_size`.
    pub fn validate_sections(
        &self,
        height: Height,
        batch: &BatchPayload,
        past_payloads: &[(Height, Time, Payload)],
        context: &ValidationContext,
        max_size: NumBytes,
    ) -> (verdict: ValidationResult<PayloadValidationError>)
        ensures
            verdict == batch_verdict(
                self.sections(),
                height,
                batch@,
                *context,
                past_view(past_payloads@),
                max_size,
            ),
    {
        let ghost builders = self.section_builder@;
        let ghost past = past_view(past_payloads@);
        let mut accumulated_size = NumBytes::new(0);
        let mut i: usize = 0;
        while i < self.section_builder.len()
            invariant
                i <= builders.len(),
                builders == self.section_builder@,
                past == past_view(past_payloads@),
                accumulated_size.0 <= max_size.0,
                batch_verdict(builders, height, batch@, *context, past, max_size) == validated_from(
                    builders,
                    height,
                    batch@,
                    *context,
                    past,
                    max_size,
                    i as int,
                    accumulated_size.0 as int,
                ),
            decreases builders.len() - i,
        {
            let builder = &self.section_builder[i];
            match builder.validate_payload(height, batch, context, past_payloads) {
                Err(error) => {
                    return Err(
                        ValidationError::Permanent(
                            PayloadPermanentError::SectionInvalid {
                                section: builder.kind(),
                                error,
                            },
                        ),
                    );
                },
                Ok(size) => {
                    match accumulated_size.checked_add(size) {
                        None => {
                            return Err(
                                ValidationError::Permanent(
                                    PayloadPermanentError::PayloadTooBig {
                                        expected: max_size,
                                        received: NumBytes::new(u64::MAX),
                                    },
                                ),
                            );
                        },
                        Some(received) => {
                            if received.get() > max_size.get() {
                                return Err(
                                    ValidationError::Permanent(
                                        PayloadPermanentError::PayloadTooBig {
                                            expected: max_size,
                                            received,
                                        },
                                    ),
                                );
                            }
                            accumulated_size = received;
                        },
                    }
                },
            }
            i = i + 1;
        }
        Ok(())
    }

    /// Validates `payload`, given the subnet record that the registry holds
    /// at the registry version of `context`, or the error that its lookup
    /// ended with.
    pub fn validate_with_record(
        &mut self,
        height: Height,
        payload: &Payload,
        past_payloads: &[(Height, Time, Payload)],
        context: &ValidationContext,
        record: Result<SubnetRecord, PayloadValidationError>,
    ) -> (verdict: ValidationResult<PayloadValidationError>)
        ensures
            verdict == payload_verdict(
                old(self).sections(),
                height,
                payload@,
                *context,
                past_view(past_payloads@),
                record,
            ),
            old(self).same_builder(final(self)),
            counted_after_resolution(
                old(self).counted(),
                final(self).counted(),
                resolves_misconfigured(payload@, record),
            ),
    {
        match payload {
            Payload::Summary => Ok(()),
            Payload::Data(batch_payload) => {
                match record {
                    Err(error) => Err(error),
                    Ok(subnet_record) => {
                        let max_block_payload_size = self.get_max_block_payload_size_bytes(
                            &subnet_record,
                        );
                        self.validate_sections(
                            height,
                            batch_payload,
                            past_payloads,
                            context,
                            max_block_payload_size,
                        )
                    },
                }
            },
        }
    }

    /// The number of sections that this builder fills: one for each class
    /// of messages.
    pub fn section_count(&self) -> (count: usize)
        ensures
            count == self.sections().len(),
            sections_well_formed(self.sections()),
    {
        proof {
            use_type_invariant(self);
        }
        self.section_builder.len()
    }

    /// What this builder has counted so far.
    pub fn metrics(&self) -> (metrics: PayloadBuilderMetrics)
        ensures
            metrics == self.counted(),
    {
        self.metrics
    }
}

impl<
    R: RegistryClient,
    I: SectionSource,
    S: SectionSource,
    X: SectionSource,
    C: SectionSource,
> PayloadBuilder for PayloadBuilderImpl<R, I, S, X, C> {
    /// Builds the payload of the block at `height`.
    ///
    /// The payload size is the one that the subnet record of the context
    /// version allows. The sections are filled in the order that is rotated
    /// by `height`, each with what the sections before it have left of that
    /// size: whatever the sources offer, the payload is what `filled` makes
    /// of their offers. Every section of the payload returned is valid, and
    /// together the sections count for no more bytes than the payload size:
    /// the payload passes a validation at the same height, with the same
    /// context and past payloads, against a subnet record that allows as
    /// much.
    ///
    /// The number of past payloads and the time that the build took are
    /// recorded, and a subnet record that allows too little is reported to
    /// the alarm.
    fn get_payload(
        &mut self,
        height: Height,
        past_payloads: &[(Height, Time, Payload)],
        context: &ValidationContext,
        subnet_records: &SubnetRecords,
    ) -> (batch: BatchPayload)
        ensures
            old(self).same_builder(final(self)),
            sections_well_formed(final(self).sections()),
            sections_size(
                final(self).sections(),
                height,
                batch@,
                *context,
                past_view(past_payloads@),
            ) matches Some(total) && total <= max_block_payload_size(
                subnet_records.context_version,
            ),
            exists|offers: Seq<Seq<Seq<u8>>>, resolved: PayloadBuilderMetrics, elapsed: u64|
                #![trigger filled(
                    old(self).sections(),
                    height,
                    *context,
                    past_view(past_payloads@),
                    NumBytes(max_block_payload_size(subnet_records.context_version)),
                    offers,
                    resolved,
                ).2.with_get_payload_duration(elapsed)]
                {
                    let built = filled(
                        old(self).sections(),
                        height,
                        *context,
                        past_view(past_payloads@),
                        NumBytes(max_block_payload_size(subnet_records.context_version)),
                        offers,
                        resolved,
                    );
                    &&& offered(
                        old(self).sections(),
                        height,
                        *context,
                        past_view(past_payloads@),
                        NumBytes(max_block_payload_size(subnet_records.context_version)),
                        offers,
                        resolved,
                    )
                    &&& counted_after_resolution(
                        old(self).counted().with_past_payloads(past_payloads@.len() as u64),
                        resolved,
                        needs_clamp(subnet_records.context_version),
                    )
                    &&& batch@ == built.0
                    &&& final(self).counted() == built.2.with_get_payload_duration(elapsed)
                },
    {
        proof {
            use_type_invariant(&*self);
        }
        let start = current_time();
        let mut metrics = self.metrics;
        metrics.observe_past_payloads(past_payloads.len() as u64);
        self.metrics = metrics;
        let max_size = self.get_max_block_payload_size_bytes(&subnet_records.context_version);
        let ghost resolved = self.counted();
        let (batch_payload, used) = self.build_sections(
            height,
            past_payloads,
            context,
            max_size,
        );
        let ghost built = self.counted();
        let elapsed = nanos_since(start);
        proof {
            use_type_invariant(&*self);
        }
        let mut metrics = self.metrics;
        metrics.observe_get_payload_duration(elapsed);
        self.metrics = metrics;
        proof {
            let offers = choose|offers: Seq<Seq<Seq<u8>>>|
                offered(
                    old(self).sections(),
                    height,
                    *context,
                    past_view(past_payloads@),
                    max_size,
                    offers,
                    resolved,
                ) && #[trigger] filled(
                    old(self).sections(),
                    height,
                    *context,
                    past_view(past_payloads@),
                    max_size,
                    offers,
                    resolved,
                ) == (batch_payload@, used.0 as nat, built);
            assert(self.counted() == filled(
                old(self).sections(),
                height,
                *context,
                past_view(past_payloads@),
                NumBytes(max_block_payload_size(subnet_records.context_version)),
                offers,
                resolved,
            ).2.with_get_payload_duration(elapsed));
        }
        batch_payload
    }

    /// Validates the payload of the block at `height`.
    ///
    /// The payload of a summary block is valid, and the registry is not
    /// asked. For a data block the subnet record at the registry version of
    /// `context` is looked up; whatever the registry answers, the outcome
    /// is what `payload_verdict` makes of the answer. The time that the
    /// validation took is recorded.
    fn validate_payload(
        &mut self,
        height: Height,
        payload: &Payload,
        past_payloads: &[(Height, Time, Payload)],
        context: &ValidationContext,
    ) -> (verdict: ValidationResult<PayloadValidationError>)
        ensures
            old(self).same_builder(final(self)),
            sections_well_formed(final(self).sections()),
            exists|
                lookup: Result<SubnetRecord, RegistryError>,
                resolved: PayloadBuilderMetrics,
                elapsed: u64,
            |
                #![trigger
                    subnet_record_or_error(old(self).subnet(), context.registry_version, lookup),
                    resolved.with_validate_payload_duration(elapsed),
                ]
                {
                    let record = subnet_record_or_error(
                        old(self).subnet(),
                        context.registry_version,
                        lookup,
                    );
                    &&& payload is Data ==> old(self).registry().answers(
                        old(self).subnet(),
                        context.registry_version,
                        lookup,
                    )
                    &&& verdict == payload_verdict(
                        old(self).sections(),
                        height,
                        payload@,
                        *context,
                        past_view(past_payloads@),
                        record,
                    )
                    &&& counted_after_resolution(
                        old(self).counted(),
                        resolved,
                        resolves_misconfigured(payload@, record),
                    )
                    &&& final(self).counted() == resolved.with_validate_payload_duration(elapsed)
                },
    {
        proof {
            use_type_invariant(&*self);
        }
        let start = current_time();
        let ghost mut lookup = Err::<SubnetRecord, RegistryError>(RegistryError::Unavailable);
        let verdict = if payload.is_summary() {
            Ok(())
        } else {
            let record = self.get_subnet_record(context);
            proof {
                lookup = choose|lookup: Result<SubnetRecord, RegistryError>|
                    self.registry().answers(self.subnet(), context.registry_version, lookup)
                        && record == #[trigger] subnet_record_or_error(
                        self.subnet(),
                        context.registry_version,
                        lookup,
                    );
            }
            self.validate_with_record(height, payload, past_payloads, context, record)
        };
        let ghost resolved = self.counted();
        let elapsed = nanos_since(start);
        proof {
            use_type_invariant(&*self);
        }
        let mut metrics = self.metrics;
        metrics.observe_validate_payload_duration(elapsed);
        self.metrics = metrics;
        proof {
            let record = subnet_record_or_error(
                old(self).subnet(),
                context.registry_version,
                lookup,
            );
            assert(verdict == payload_verdict(
                old(self).sections(),
                height,
                payload@,
                *context,
                past_view(past_payloads@),
                record,
            ));
            assert(counted_after_resolution(
                old(self).counted(),
                resolved,
                resolves_misconfigured(payload@, record),
            ));
            assert(self.counted() == resolved.with_validate_payload_duration(elapsed));
        }
        verdict
    }
}

} // verus!
