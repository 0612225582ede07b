//! What holds of the payload size, the alarm, the rotation and the
//! validation, for all inputs.

use vstd::prelude::*;
use vstd::arithmetic::div_mod::{lemma_fundamental_div_mod, lemma_fundamental_div_mod_converse};
use crate::budget::{
    is_misconfigured, max_block_payload_size, required_min_size, resolved_size, FaultAlarm,
    ALARM_COOLDOWN_NANOS,
};
use crate::metrics::PayloadBuilderMetrics;
use crate::payload_builder::{
    batch_verdict, filled, filled_upto, kinds_distinct, payload_verdict, saturated,
    sections_size, sections_size_upto, sections_well_formed, validated_from,
    PayloadPermanentError, PayloadValidationError, Sections, ValidationError,
};
use crate::rotation::{
    fixed_order, lemma_rotate_right_index, lemma_rotated_order_is_permutation, rotated_order,
    rotation_offset,
};
use crate::section::{SectionError, SectionSource};
use crate::time::Time;
use crate::types::{
    BatchPayloadView, Height, NumBytes, PastPayloads, PayloadView, SectionKind, SubnetRecord,
    ValidationContext,
};

verus! {

/// The payload size that is resolved from a subnet record is never below
/// the floor of the external chain, the floor of the cross-subnet
/// messages, or the largest ingress message that the record admits.
pub proof fn lemma_budget_monotonicity(chain_floor: u64, xnet_floor: u64, record: SubnetRecord)
    ensures
        resolved_size(chain_floor, xnet_floor, record) >= required_min_size(
            chain_floor,
            xnet_floor,
            record,
        ),
        required_min_size(chain_floor, xnet_floor, record) >= chain_floor,
        required_min_size(chain_floor, xnet_floor, record) >= xnet_floor,
        required_min_size(chain_floor, xnet_floor, record) >= record.max_ingress_bytes_per_message,
        required_min_size(chain_floor, xnet_floor, record) == chain_floor || required_min_size(
            chain_floor,
            xnet_floor,
            record,
        ) == xnet_floor || required_min_size(chain_floor, xnet_floor, record)
            == record.max_ingress_bytes_per_message,
{
}

/// A subnet record that allows less than the required minimum resolves to
/// exactly the required minimum.
pub proof fn lemma_clamp(chain_floor: u64, xnet_floor: u64, record: SubnetRecord)
    requires
        record.max_block_payload_size < required_min_size(chain_floor, xnet_floor, record),
    ensures
        is_misconfigured(chain_floor, xnet_floor, record),
        resolved_size(chain_floor, xnet_floor, record) == required_min_size(
            chain_floor,
            xnet_floor,
            record,
        ),
{
}

/// Faults that are seen less than a cooldown window after the alarm was
/// raised leave the alarm as it is.
pub proof fn lemma_alarm_quiet_in_window(alarm: FaultAlarm, times: Seq<Time>)
    requires
        alarm.last_raised matches Some(last) && forall|i: int|
            0 <= i < times.len() ==> (#[trigger] times[i])@ < last@ + ALARM_COOLDOWN_NANOS,
    ensures
        alarm.after_faults(times) == alarm,
    decreases times.len(),
{
    if times.len() > 0 {
        let rest = times.subrange(1, times.len() as int);
        assert(!alarm.due(times[0]));
        assert forall|i: int| 0 <= i < rest.len() implies (#[trigger] rest[i])@
            < alarm.last_raised.unwrap()@ + ALARM_COOLDOWN_NANOS by {
            assert(rest[i] == times[i + 1]);
        }
        lemma_alarm_quiet_in_window(alarm, rest);
    }
}

/// However many faults are seen within one cooldown window, the alarm is
/// raised once: by the first of them.
pub proof fn lemma_alarm_once_per_window(alarm: FaultAlarm, times: Seq<Time>)
    requires
        times.len() > 0,
        alarm.due(times[0]),
        alarm.raised < u64::MAX,
        forall|i: int|
            0 <= i < times.len() ==> (#[trigger] times[i])@ < times[0]@ + ALARM_COOLDOWN_NANOS,
    ensures
        alarm.after_faults(times).raised == alarm.raised + 1,
        alarm.after_faults(times).last_raised == Some(times[0]),
{
    let rest = times.subrange(1, times.len() as int);
    let raised = alarm.after_fault(times[0]);
    assert forall|i: int| 0 <= i < rest.len() implies (#[trigger] rest[i])@ < times[0]@
        + ALARM_COOLDOWN_NANOS by {
        assert(rest[i] == times[i + 1]);
    }
    lemma_alarm_quiet_in_window(raised, rest);
}

/// The height that lies `i` blocks above `start`.
pub open spec fn height_after(start: Height, i: int) -> Height {
    Height((start.0 + i) as u64)
}

/// The section that is filled first at the height `i` blocks above `start`.
pub open spec fn first_section<T>(ids: Seq<T>, start: Height, i: int) -> T {
    rotated_order(ids, height_after(start, i))[0]
}

/// Whether the section at place `s` of `ids` is the first to be filled at
/// one of the `ids.len()` heights from `start` on.
pub open spec fn comes_first<T>(ids: Seq<T>, start: Height, s: int) -> bool {
    exists|i: int| 0 <= i < ids.len() && #[trigger] first_section(ids, start, i) == ids[s]
}

/// The rotation offset `i` blocks above a height, from the offset at that
/// height.
proof fn lemma_offset_after(n: int, start: Height, i: int)
    requires
        n > 0,
        0 <= i < n,
        start.0 + i <= u64::MAX,
    ensures
        rotation_offset(n as nat, height_after(start, i)) == if rotation_offset(n as nat, start)
            + i < n {
            rotation_offset(n as nat, start) + i
        } else {
            rotation_offset(n as nat, start) + i - n
        },
{
    let h = start.0 as int;
    let q = h / n;
    let r = h % n;
    lemma_fundamental_div_mod(h, n);
    assert(0 <= r < n);
    if r + i < n {
        assert(h + i == q * n + (r + i)) by (nonlinear_arith)
            requires
                h == n * q + r,
        ;
        lemma_fundamental_div_mod_converse(h + i, n, q, r + i);
    } else {
        assert(h + i == (q + 1) * n + (r + i - n)) by (nonlinear_arith)
            requires
                h == n * q + r,
        ;
        lemma_fundamental_div_mod_converse(h + i, n, q + 1, r + i - n);
    }
}

/// Over as many consecutive heights as there are sections, each section
/// is the first to be filled exactly once.
pub proof fn lemma_rotation_fairness<T>(ids: Seq<T>, start: Height)
    requires
        ids.len() > 0,
        ids.no_duplicates(),
        start.0 + ids.len() - 1 <= u64::MAX,
    ensures
        forall|s: int| 0 <= s < ids.len() ==> #[trigger] comes_first(ids, start, s),
        forall|i: int, j: int|
            0 <= i < ids.len() && 0 <= j < ids.len() && i != j ==> #[trigger] first_section(
                ids,
                start,
                i,
            ) != #[trigger] first_section(ids, start, j),
{
    let n = ids.len() as int;
    let r = rotation_offset(ids.len(), start);
    lemma_fundamental_div_mod(start.0 as int, n);
    assert(0 <= r < n);
    // The place in `ids` of the section that comes first, `i` blocks after `start`.
    let place = |i: int|
        {
            let k = if r + i < n {
                r + i
            } else {
                r + i - n
            };
            if k > 0 {
                n - k
            } else {
                0
            }
        };
    assert forall|i: int| 0 <= i < n implies 0 <= place(i) < n && #[trigger] first_section(
        ids,
        start,
        i,
    ) == ids[place(i)] by {
        lemma_offset_after(n, start, i);
        lemma_rotate_right_index(ids, rotation_offset(ids.len(), height_after(start, i)), 0);
    }
    assert forall|s: int| 0 <= s < ids.len() implies #[trigger] comes_first(ids, start, s) by {
        let k = if s == 0 {
            0
        } else {
            n - s
        };
        let i = if k >= r {
            k - r
        } else {
            k - r + n
        };
        assert(0 <= i < n);
        assert(place(i) == s);
        assert(first_section(ids, start, i) == ids[s]);
    }
    assert forall|i: int, j: int|
        0 <= i < n && 0 <= j < n && i != j implies #[trigger] first_section(ids, start, i)
        != #[trigger] first_section(ids, start, j) by {
        assert(place(i) != place(j));
        assert(first_section(ids, start, i) == ids[place(i)]);
        assert(first_section(ids, start, j) == ids[place(j)]);
    }
}

/// Where all of the first `count` sections are valid, so are the first
/// `fewer` of them, and they count for no more bytes.
pub proof fn lemma_size_of_prefix<
    I: SectionSource,
    S: SectionSource,
    X: SectionSource,
    C: SectionSource,
>(
    builders: Sections<I, S, X, C>,
    height: Height,
    batch: BatchPayloadView,
    context: ValidationContext,
    past_payloads: PastPayloads,
    fewer: nat,
    count: nat,
)
    requires
        fewer <= count,
        sections_size_upto(builders, height, batch, context, past_payloads, count) is Some,
    ensures
        sections_size_upto(builders, height, batch, context, past_payloads, fewer) matches Some(
            size,
        ) && size <= sections_size_upto(
            builders,
            height,
            batch,
            context,
            past_payloads,
            count,
        ).unwrap(),
    decreases count,
{
    if fewer < count {
        lemma_size_of_prefix(
            builders,
            height,
            batch,
            context,
            past_payloads,
            fewer,
            (count - 1) as nat,
        );
    }
}

/// The validation that has reached section `next` with all sections
/// before it valid and within `max_size` succeeds exactly where all
/// sections are valid and count for no more than `max_size` together.
proof fn lemma_validated_from<
    I: SectionSource,
    S: SectionSource,
    X: SectionSource,
    C: SectionSource,
>(
    builders: Sections<I, S, X, C>,
    height: Height,
    batch: BatchPayloadView,
    context: ValidationContext,
    past_payloads: PastPayloads,
    max_size: NumBytes,
    next: nat,
    accumulated: nat,
)
    requires
        next <= builders.len(),
        sections_size_upto(builders, height, batch, context, past_payloads, next) == Some(
            accumulated,
        ),
        accumulated <= max_size.0,
    ensures
        validated_from(
            builders,
            height,
            batch,
            context,
            past_payloads,
            max_size,
            next as int,
            accumulated as int,
        ) is Ok <==> (sections_size(builders, height, batch, context, past_payloads) matches Some(
            total,
        ) && total <= max_size.0),
    decreases builders.len() - next,
{
    if next < builders.len() {
        let whole = sections_size(builders, height, batch, context, past_payloads);
        if whole is Some {
            lemma_size_of_prefix(
                builders,
                height,
                batch,
                context,
                past_payloads,
                next + 1,
                builders.len(),
            );
        }
        match builders[next as int].verdict(height, batch, context, past_payloads) {
            Err(_) => {},
            Ok(size) => {
                if accumulated + size.0 <= max_size.0 {
                    lemma_validated_from(
                        builders,
                        height,
                        batch,
                        context,
                        past_payloads,
                        max_size,
                        next + 1,
                        accumulated + size.0 as nat,
                    );
                }
            },
        }
    }
}

/// A batch is valid exactly where each of its sections is valid and the
/// sections count for no more bytes together than a payload may have.
pub proof fn lemma_valid_iff_sections_fit<
    I: SectionSource,
    S: SectionSource,
    X: SectionSource,
    C: SectionSource,
>(
    builders: Sections<I, S, X, C>,
    height: Height,
    batch: BatchPayloadView,
    context: ValidationContext,
    past_payloads: PastPayloads,
    max_size: NumBytes,
)
    ensures
        batch_verdict(builders, height, batch, context, past_payloads, max_size) is Ok <==> (
        sections_size(builders, height, batch, context, past_payloads) matches Some(total) && total
            <= max_size.0),
{
    lemma_validated_from(builders, height, batch, context, past_payloads, max_size, 0, 0);
}

/// A payload whose sections are valid and count for no more bytes than
/// the subnet record of its build allows passes the validation at the
/// same height, with the same context and past payloads, against every
/// subnet record that allows as much. What `get_payload` returns is such a
/// payload.
pub proof fn lemma_built_payload_is_valid<
    I: SectionSource,
    S: SectionSource,
    X: SectionSource,
    C: SectionSource,
>(
    builders: Sections<I, S, X, C>,
    height: Height,
    batch: BatchPayloadView,
    context: ValidationContext,
    past_payloads: PastPayloads,
    built_under: SubnetRecord,
    validated_under: SubnetRecord,
)
    requires
        sections_size(builders, height, batch, context, past_payloads) matches Some(total) && total
            <= max_block_payload_size(built_under),
        max_block_payload_size(built_under) <= max_block_payload_size(validated_under),
    ensures
        payload_verdict(
            builders,
            height,
            PayloadView::Data(batch),
            context,
            past_payloads,
            Ok(validated_under),
        ) is Ok,
{
    lemma_valid_iff_sections_fit(
        builders,
        height,
        batch,
        context,
        past_payloads,
        NumBytes(max_block_payload_size(validated_under)),
    );
}

/// Once a builder has filled its section, which was empty, the sections
/// count for as many bytes more as the builder used.
pub proof fn lemma_size_after_build<
    I: SectionSource,
    S: SectionSource,
    X: SectionSource,
    C: SectionSource,
>(
    builders: Sections<I, S, X, C>,
    height: Height,
    before: BatchPayloadView,
    after: BatchPayloadView,
    context: ValidationContext,
    past_payloads: PastPayloads,
    id: int,
    used: NumBytes,
    count: nat,
)
    requires
        kinds_distinct(builders),
        0 <= id < builders.len(),
        count <= builders.len(),
        before.section(builders[id].spec_kind()).len() == 0,
        forall|other: SectionKind|
            other != builders[id].spec_kind() ==> after.section(other) == before.section(other),
        builders[id].verdict(height, after, context, past_payloads) == Ok::<
            NumBytes,
            SectionError,
        >(used),
        sections_size_upto(builders, height, before, context, past_payloads, count) is Some,
    ensures
        sections_size_upto(builders, height, after, context, past_payloads, count) == Some(
            sections_size_upto(builders, height, before, context, past_payloads, count).unwrap()
                + if id < count {
                used.0 as nat
            } else {
                0nat
            },
        ),
    decreases count,
{
    if count > 0 {
        lemma_size_after_build(
            builders,
            height,
            before,
            after,
            context,
            past_payloads,
            id,
            used,
            (count - 1) as nat,
        );
        let j = count - 1;
        if j != id {
            assert(builders[j].spec_kind() != builders[id].spec_kind());
        }
    }
}

/// The sections of an empty payload are valid and count for nothing.
pub proof fn lemma_size_of_empty<
    I: SectionSource,
    S: SectionSource,
    X: SectionSource,
    C: SectionSource,
>(
    builders: Sections<I, S, X, C>,
    height: Height,
    context: ValidationContext,
    past_payloads: PastPayloads,
    count: nat,
)
    requires
        count <= builders.len(),
    ensures
        sections_size_upto(
            builders,
            height,
            BatchPayloadView::empty(),
            context,
            past_payloads,
            count,
        ) == Some(0nat),
    decreases count,
{
    if count > 0 {
        lemma_size_of_empty(builders, height, context, past_payloads, (count - 1) as nat);
        let kind = builders[count - 1].spec_kind();
        assert(BatchPayloadView::empty().section(kind).len() == 0);
    }
}

/// Whether `order` names each of `n` sections once.
pub open spec fn is_order(order: Seq<usize>, n: nat) -> bool {
    &&& order.len() == n
    &&& forall|p: int| 0 <= p < n ==> 0 <= (#[trigger] order[p]) < n
    &&& forall|p: int, q: int| 0 <= p < n && 0 <= q < n && p != q ==> order[p] != order[q]
}

/// Whatever the sources offer, the sections that are filled count for no
/// more bytes than the payload may have; each section that is filled is
/// valid, and each that is not yet filled is empty.
pub proof fn lemma_filled_upto_within_size<
    I: SectionSource,
    S: SectionSource,
    X: SectionSource,
    C: SectionSource,
>(
    builders: Sections<I, S, X, C>,
    height: Height,
    context: ValidationContext,
    past_payloads: PastPayloads,
    max_size: NumBytes,
    order: Seq<usize>,
    offers: Seq<Seq<Seq<u8>>>,
    counted: PayloadBuilderMetrics,
    count: nat,
)
    requires
        kinds_distinct(builders),
        is_order(order, builders.len()),
        count <= builders.len(),
    ensures
        filled_upto(
            builders,
            height,
            context,
            past_payloads,
            max_size,
            order,
            offers,
            counted,
            count,
        ).1 <= max_size.0,
        sections_size_upto(
            builders,
            height,
            filled_upto(
                builders,
                height,
                context,
                past_payloads,
                max_size,
                order,
                offers,
                counted,
                count,
            ).0,
            context,
            past_payloads,
            builders.len(),
        ) == Some(
            filled_upto(
                builders,
                height,
                context,
                past_payloads,
                max_size,
                order,
                offers,
                counted,
                count,
            ).1,
        ),
        forall|p: int|
            count <= p < builders.len() ==> filled_upto(
                builders,
                height,
                context,
                past_payloads,
                max_size,
                order,
                offers,
                counted,
                count,
            ).0.section(builders[(#[trigger] order[p]) as int].spec_kind()).len() == 0,
    decreases count,
{
    if count == 0 {
        lemma_size_of_empty(builders, height, context, past_payloads, builders.len());
        assert forall|p: int| 0 <= p < builders.len() implies BatchPayloadView::empty().section(
            builders[(#[trigger] order[p]) as int].spec_kind(),
        ).len() == 0 by {}
    } else {
        let fewer = (count - 1) as nat;
        lemma_filled_upto_within_size(
            builders,
            height,
            context,
            past_payloads,
            max_size,
            order,
            offers,
            counted,
            fewer,
        );
        let before = filled_upto(
            builders,
            height,
            context,
            past_payloads,
            max_size,
            order,
            offers,
            counted,
            fewer,
        );
        let after = filled_upto(
            builders,
            height,
            context,
            past_payloads,
            max_size,
            order,
            offers,
            counted,
            count,
        );
        let id = order[count - 1] as int;
        let builder = builders[id];
        let left = NumBytes(saturated(max_size.0 - before.1));
        let offered = offers[count - 1];
        builder.lemma_accepted_is_valid(height, offered, context, past_payloads, left, before.0);
        assert(before.0.section(builder.spec_kind()).len() == 0);
        lemma_size_after_build(
            builders,
            height,
            before.0,
            after.0,
            context,
            past_payloads,
            id,
            builder.accepted(height, offered, context, past_payloads, left).1,
            builders.len(),
        );
        assert forall|p: int| count <= p < builders.len() implies after.0.section(
            builders[(#[trigger] order[p]) as int].spec_kind(),
        ).len() == 0 by {
            assert(order[p] != order[count - 1]);
            assert(builders[order[p] as int].spec_kind() != builders[id].spec_kind());
        }
    }
}

/// Filling the sections counts nothing but the offers that are dropped:
/// at most one for each section.
pub proof fn lemma_filled_counts_dropped_offers<
    I: SectionSource,
    S: SectionSource,
    X: SectionSource,
    C: SectionSource,
>(
    builders: Sections<I, S, X, C>,
    height: Height,
    context: ValidationContext,
    past_payloads: PastPayloads,
    max_size: NumBytes,
    order: Seq<usize>,
    offers: Seq<Seq<Seq<u8>>>,
    counted: PayloadBuilderMetrics,
    count: nat,
)
    ensures
        ({
            let after = filled_upto(
                builders,
                height,
                context,
                past_payloads,
                max_size,
                order,
                offers,
                counted,
                count,
            ).2;
            &&& after == counted.with_validation_faults(
                after.critical_error_validation_not_passed,
            )
            &&& counted.critical_error_validation_not_passed
                <= after.critical_error_validation_not_passed
            &&& after.critical_error_validation_not_passed
                <= counted.critical_error_validation_not_passed + count
        }),
    decreases count,
{
    if count > 0 {
        lemma_filled_counts_dropped_offers(
            builders,
            height,
            context,
            past_payloads,
            max_size,
            order,
            offers,
            counted,
            (count - 1) as nat,
        );
    }
}

/// Whatever the height, the payload size and what the sources offer: the
/// sections of the payload that is built are valid, and the bytes that
/// they count for, which are the bytes that the builders report as used,
/// are together no more than the payload may have.
pub proof fn lemma_build_within_size<
    I: SectionSource,
    S: SectionSource,
    X: SectionSource,
    C: SectionSource,
>(
    builders: Sections<I, S, X, C>,
    height: Height,
    context: ValidationContext,
    past_payloads: PastPayloads,
    max_size: NumBytes,
    offers: Seq<Seq<Seq<u8>>>,
    counted: PayloadBuilderMetrics,
)
    requires
        sections_well_formed(builders),
    ensures
        filled(builders, height, context, past_payloads, max_size, offers, counted).1
            <= max_size.0,
        sections_size(
            builders,
            height,
            filled(builders, height, context, past_payloads, max_size, offers, counted).0,
            context,
            past_payloads,
        ) == Some(filled(builders, height, context, past_payloads, max_size, offers, counted).1),
{
    lemma_rotated_order_is_permutation(builders.len(), height);
    lemma_filled_upto_within_size(
        builders,
        height,
        context,
        past_payloads,
        max_size,
        rotated_order(fixed_order(builders.len()), height),
        offers,
        counted,
        builders.len(),
    );
}

/// Whatever the sources offer, the payload that is built under a subnet
/// record passes the validation at the same height, with the same context
/// and past payloads, against every subnet record that allows as much.
pub proof fn lemma_validate_agrees_with_build<
    I: SectionSource,
    S: SectionSource,
    X: SectionSource,
    C: SectionSource,
>(
    builders: Sections<I, S, X, C>,
    height: Height,
    context: ValidationContext,
    past_payloads: PastPayloads,
    offers: Seq<Seq<Seq<u8>>>,
    counted: PayloadBuilderMetrics,
    built_under: SubnetRecord,
    validated_under: SubnetRecord,
)
    requires
        sections_well_formed(builders),
        max_block_payload_size(built_under) <= max_block_payload_size(validated_under),
    ensures
        payload_verdict(
            builders,
            height,
            PayloadView::Data(
                filled(
                    builders,
                    height,
                    context,
                    past_payloads,
                    NumBytes(max_block_payload_size(built_under)),
                    offers,
                    counted,
                ).0,
            ),
            context,
            past_payloads,
            Ok(validated_under),
        ) is Ok,
{
    let max_size = NumBytes(max_block_payload_size(built_under));
    lemma_build_within_size(builders, height, context, past_payloads, max_size, offers, counted);
    lemma_built_payload_is_valid(
        builders,
        height,
        filled(builders, height, context, past_payloads, max_size, offers, counted).0,
        context,
        past_payloads,
        built_under,
        validated_under,
    );
}

/// While the sections are valid and within `max_size`, the validation
/// goes on to the next section.
proof fn lemma_validation_reaches<
    I: SectionSource,
    S: SectionSource,
    X: SectionSource,
    C: SectionSource,
>(
    builders: Sections<I, S, X, C>,
    height: Height,
    batch: BatchPayloadView,
    context: ValidationContext,
    past_payloads: PastPayloads,
    max_size: NumBytes,
    next: nat,
    reached: nat,
)
    requires
        next <= reached <= builders.len(),
        sections_size_upto(builders, height, batch, context, past_payloads, reached) matches Some(
            size,
        ) && size <= max_size.0,
    ensures
        sections_size_upto(builders, height, batch, context, past_payloads, next) is Some,
        validated_from(
            builders,
            height,
            batch,
            context,
            past_payloads,
            max_size,
            next as int,
            sections_size_upto(
                builders,
                height,
                batch,
                context,
                past_payloads,
                next,
            ).unwrap() as int,
        ) == validated_from(
            builders,
            height,
            batch,
            context,
            past_payloads,
            max_size,
            reached as int,
            sections_size_upto(
                builders,
                height,
                batch,
                context,
                past_payloads,
                reached,
            ).unwrap() as int,
        ),
    decreases reached - next,
{
    lemma_size_of_prefix(builders, height, batch, context, past_payloads, next, reached);
    if next < reached {
        lemma_size_of_prefix(builders, height, batch, context, past_payloads, next + 1, reached);
        lemma_validation_reaches(
            builders,
            height,
            batch,
            context,
            past_payloads,
            max_size,
            next + 1,
            reached,
        );
    }
}

/// The validation ends at the first section with which the bytes counted
/// exceed `max_size`: it reports the bytes counted up to and including
/// that section, and what the later sections hold plays no part.
pub proof fn lemma_rejected_at_first_excess<
    I: SectionSource,
    S: SectionSource,
    X: SectionSource,
    C: SectionSource,
>(
    builders: Sections<I, S, X, C>,
    height: Height,
    batch: BatchPayloadView,
    context: ValidationContext,
    past_payloads: PastPayloads,
    max_size: NumBytes,
    at: nat,
)
    requires
        at < builders.len(),
        sections_size_upto(builders, height, batch, context, past_payloads, at) matches Some(
            size,
        ) && size <= max_size.0,
        sections_size_upto(builders, height, batch, context, past_payloads, at + 1) matches Some(
            size,
        ) && size > max_size.0,
    ensures
        batch_verdict(builders, height, batch, context, past_payloads, max_size) == Err::<
            (),
            PayloadValidationError,
        >(
            ValidationError::Permanent(
                PayloadPermanentError::PayloadTooBig {
                    expected: max_size,
                    received: NumBytes(
                        saturated(
                            sections_size_upto(
                                builders,
                                height,
                                batch,
                                context,
                                past_payloads,
                                at + 1,
                            ).unwrap() as int,
                        ),
                    ),
                },
            ),
        ),
{
    lemma_validation_reaches(builders, height, batch, context, past_payloads, max_size, 0, at);
}

/// A batch whose first section alone counts for more bytes than a payload
/// may have is rejected as too big, with the size of that section as the
/// size received, whatever its other sections hold.
pub proof fn lemma_early_rejection<
    I: SectionSource,
    S: SectionSource,
    X: SectionSource,
    C: SectionSource,
>(
    builders: Sections<I, S, X, C>,
    height: Height,
    batch: BatchPayloadView,
    context: ValidationContext,
    past_payloads: PastPayloads,
    max_size: NumBytes,
    first_size: NumBytes,
)
    requires
        builders.len() > 0,
        builders[0].verdict(height, batch, context, past_payloads) == Ok::<NumBytes, SectionError>(
            first_size,
        ),
        first_size.0 > max_size.0,
    ensures
        batch_verdict(builders, height, batch, context, past_payloads, max_size) == Err::<
            (),
            PayloadValidationError,
        >(
            ValidationError::Permanent(
                PayloadPermanentError::PayloadTooBig { expected: max_size, received: first_size },
            ),
        ),
{
}

/// The payload of a summary block is valid, whatever the height, the
/// context, the past payloads and the registry.
pub proof fn lemma_summary_is_valid<
    I: SectionSource,
    S: SectionSource,
    X: SectionSource,
    C: SectionSource,
>(
    builders: Sections<I, S, X, C>,
    height: Height,
    context: ValidationContext,
    past_payloads: PastPayloads,
    record: Result<SubnetRecord, PayloadValidationError>,
)
    ensures
        payload_verdict(builders, height, PayloadView::Summary, context, past_payloads, record)
            == Ok::<(), PayloadValidationError>(()),
{
}

} // verus!
