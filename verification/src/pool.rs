//! A pool of pending messages: the plainest source of a section.

use vstd::prelude::*;
use crate::section::{SectionError, SectionSource};
use crate::time::Time;
use crate::types::{
    past_view, Height, NumBytes, PastPayloads, Payload, SectionKind, SectionPayload,
    ValidationContext,
};

verus! {

/// The number of bytes of all messages of a section.
pub open spec fn total_bytes(section: Seq<Seq<u8>>) -> nat
    decreases section.len(),
{
    if section.len() == 0 {
        0
    } else {
        total_bytes(section.drop_last()) + section.last().len()
    }
}

/// Whether one of the messages has no bytes.
pub open spec fn has_empty_message(section: Seq<Seq<u8>>) -> bool {
    exists|i: int| 0 <= i < section.len() && (#[trigger] section[i]).len() == 0
}

/// Whether `message` is one of the first `count` messages of `section`.
pub open spec fn occurs_among(message: Seq<u8>, section: Seq<Seq<u8>>, count: int) -> bool {
    exists|j: int| 0 <= j < count && j < section.len() && #[trigger] section[j] == message
}

/// Whether a message occurs twice in the section.
pub open spec fn has_duplicate(section: Seq<Seq<u8>>) -> bool {
    exists|i: int|
        0 <= i < section.len() && #[trigger] occurs_among(section[i], section, i)
}

/// Whether a past payload holds `message` in its section of the given
/// class.
pub open spec fn in_history(
    message: Seq<u8>,
    kind: SectionKind,
    past_payloads: PastPayloads,
) -> bool {
    exists|p: int|
        0 <= p < past_payloads.len() && (#[trigger] past_payloads[p]).2 is Data && occurs_among(
            message,
            past_payloads[p].2->Data_0.section(kind),
            past_payloads[p].2->Data_0.section(kind).len() as int,
        )
}

/// Whether a past payload holds one of the messages of the section.
pub open spec fn repeats_history(
    section: Seq<Seq<u8>>,
    kind: SectionKind,
    past_payloads: PastPayloads,
) -> bool {
    exists|i: int|
        0 <= i < section.len() && in_history(#[trigger] section[i], kind, past_payloads)
}

/// What a pool of the given class says of a section. A section is
/// malformed where one of its messages is empty. It holds a duplicate
/// where a message occurs twice in it, or occurs in the same section of a
/// past payload. Any other section counts for the bytes of its messages,
/// and is malformed where their number does not fit in 64 bits.
pub open spec fn pool_verdict(
    kind: SectionKind,
    section: Seq<Seq<u8>>,
    past_payloads: PastPayloads,
) -> Result<NumBytes, SectionError> {
    if has_empty_message(section) {
        Err(SectionError::Malformed)
    } else if has_duplicate(section) || repeats_history(section, kind, past_payloads) {
        Err(SectionError::DuplicateMessage)
    } else if total_bytes(section) > u64::MAX {
        Err(SectionError::Malformed)
    } else {
        Ok(NumBytes(total_bytes(section) as u64))
    }
}

/// What a pool offers of its first `count` messages, and whether it has
/// stopped: the messages are taken in their order; one that a past payload
/// holds, or that was taken before, is passed over; at the first message
/// that does not fit in what is left of `byte_limit` the pool stops.
pub open spec fn pool_offer(
    messages: Seq<Seq<u8>>,
    kind: SectionKind,
    past_payloads: PastPayloads,
    byte_limit: NumBytes,
    count: nat,
) -> (Seq<Seq<u8>>, bool)
    decreases count,
{
    if count == 0 {
        (Seq::empty(), false)
    } else {
        let (taken, stopped) = pool_offer(
            messages,
            kind,
            past_payloads,
            byte_limit,
            (count - 1) as nat,
        );
        let message = messages[count - 1];
        if stopped || occurs_among(message, taken, taken.len() as int) || in_history(
            message,
            kind,
            past_payloads,
        ) {
            (taken, stopped)
        } else if total_bytes(taken) + message.len() > byte_limit.0 {
            (taken, true)
        } else {
            (taken.push(message), false)
        }
    }
}

/// A pool that has stopped offers nothing more.
pub proof fn lemma_pool_stays_stopped(
    messages: Seq<Seq<u8>>,
    kind: SectionKind,
    past_payloads: PastPayloads,
    byte_limit: NumBytes,
    stopped_at: nat,
    count: nat,
)
    requires
        stopped_at <= count,
        pool_offer(messages, kind, past_payloads, byte_limit, stopped_at).1,
    ensures
        pool_offer(messages, kind, past_payloads, byte_limit, count) == pool_offer(
            messages,
            kind,
            past_payloads,
            byte_limit,
            stopped_at,
        ),
    decreases count - stopped_at,
{
    if stopped_at < count {
        lemma_pool_stays_stopped(
            messages,
            kind,
            past_payloads,
            byte_limit,
            stopped_at,
            (count - 1) as nat,
        );
    }
}

/// The bytes of a section grow with each message added.
pub proof fn lemma_total_bytes_grows(section: Seq<Seq<u8>>, fewer: int, count: int)
    requires
        0 <= fewer <= count <= section.len(),
    ensures
        total_bytes(section.take(fewer)) <= total_bytes(section.take(count)),
    decreases count - fewer,
{
    if fewer < count {
        assert(section.take(count).drop_last() =~= section.take(count - 1));
        lemma_total_bytes_grows(section, fewer, count - 1);
    }
}

/// Whether two messages hold the same bytes.
fn same_message(a: &Vec<u8>, b: &Vec<u8>) -> (same: bool)
    ensures
        same == (a@ == b@),
{
    if a.len() != b.len() {
        return false;
    }
    let mut i: usize = 0;
    while i < a.len()
        invariant
            i <= a@.len(),
            a@.len() == b@.len(),
            forall|j: int| 0 <= j < i ==> a@[j] == b@[j],
        decreases a@.len() - i,
    {
        if a[i] != b[i] {
            return false;
        }
        i = i + 1;
    }
    assert(a@ =~= b@);
    true
}

/// Copies a message.
fn copy_message(message: &Vec<u8>) -> (copy: Vec<u8>)
    ensures
        copy@ == message@,
{
    let mut copy: Vec<u8> = Vec::new();
    let mut i: usize = 0;
    while i < message.len()
        invariant
            i <= message@.len(),
            copy@ == message@.take(i as int),
        decreases message@.len() - i,
    {
        copy.push(message[i]);
        i = i + 1;
        assert(copy@ =~= message@.take(i as int));
    }
    assert(message@.take(message@.len() as int) =~= message@);
    copy
}

/// Whether `message` is one of the first `count` of `messages`.
fn is_among(message: &Vec<u8>, messages: &Vec<Vec<u8>>, count: usize) -> (found: bool)
    requires
        count <= messages@.len(),
    ensures
        found == occurs_among(
            message@,
            Seq::new(messages@.len(), |i: int| messages@[i]@),
            count as int,
        ),
{
    let ghost section = Seq::new(messages@.len(), |i: int| messages@[i]@);
    let mut j: usize = 0;
    while j < count
        invariant
            j <= count <= messages@.len(),
            section == Seq::new(messages@.len(), |i: int| messages@[i]@),
            forall|k: int| 0 <= k < j ==> #[trigger] section[k] != message@,
        decreases count - j,
    {
        if same_message(&messages[j], message) {
            assert(section[j as int] == message@);
            return true;
        }
        j = j + 1;
    }
    false
}

/// Whether a past payload holds `message` in its section of the given
/// class.
fn is_in_history(
    message: &Vec<u8>,
    kind: SectionKind,
    past_payloads: &[(Height, Time, Payload)],
) -> (found: bool)
    ensures
        found == in_history(message@, kind, past_view(past_payloads@)),
{
    let ghost past = past_view(past_payloads@);
    let mut p: usize = 0;
    while p < past_payloads.len()
        invariant
            p <= past_payloads@.len(),
            past == past_view(past_payloads@),
            forall|q: int|
                0 <= q < p ==> !((#[trigger] past[q]).2 is Data && occurs_among(
                    message@,
                    past[q].2->Data_0.section(kind),
                    past[q].2->Data_0.section(kind).len() as int,
                )),
        decreases past_payloads@.len() - p,
    {
        match &past_payloads[p].2 {
            Payload::Summary => {},
            Payload::Data(batch) => {
                let section = batch.section(kind);
                assert(past[p as int].2->Data_0.section(kind) == section@);
                if is_among(message, &section.messages, section.messages.len()) {
                    assert(past[p as int].2 is Data);
                    return true;
                }
            },
        }
        p = p + 1;
    }
    false
}

/// A pool of the pending messages of one class. It offers its messages in
/// the order in which they came, and leaves out what a past payload holds
/// already.
#[derive(Clone, Debug, PartialEq, Eq)]
pub struct MessagePool {
    /// The class of the messages.
    pub kind: SectionKind,
    /// The messages, the oldest first.
    pub messages: Vec<Vec<u8>>,
}

impl View for MessagePool {
    type V = Seq<Seq<u8>>;

    open spec fn view(&self) -> Seq<Seq<u8>> {
        Seq::new(self.messages@.len(), |i: int| self.messages@[i]@)
    }
}

impl MessagePool {
    /// A pool that holds the given messages of the given class.
    pub fn new(kind: SectionKind, messages: Vec<Vec<u8>>) -> (pool: MessagePool)
        ensures
            pool.kind == kind,
            pool.messages == messages,
    {
        MessagePool { kind, messages }
    }

    /// Adds a message behind those that the pool holds.
    pub fn enqueue(&mut self, message: Vec<u8>)
        ensures
            final(self).kind == old(self).kind,
            final(self)@ == old(self)@.push(message@),
    {
        self.messages.push(message);
        assert(self@ =~= old(self)@.push(message@));
    }
}

impl SectionSource for MessagePool {
    open spec fn verdict(
        &self,
        height: Height,
        section: Seq<Seq<u8>>,
        context: ValidationContext,
        past_payloads: PastPayloads,
    ) -> Result<NumBytes, SectionError> {
        pool_verdict(self.kind, section, past_payloads)
    }

    open spec fn offers(
        &self,
        height: Height,
        context: ValidationContext,
        byte_limit: NumBytes,
        past_payloads: PastPayloads,
        section: Seq<Seq<u8>>,
    ) -> bool {
        section == pool_offer(self@, self.kind, past_payloads, byte_limit, self@.len()).0
    }

    /// Offers messages of the pool, in their order, of at most `byte_limit`
    /// bytes in all: each message that no past payload holds and that was
    /// not offered before it, up to the first that does not fit.
    fn get_section(
        &self,
        height: Height,
        context: &ValidationContext,
        byte_limit: NumBytes,
        past_payloads: &[(Height, Time, Payload)],
    ) -> (section: SectionPayload)
        ensures
            total_bytes(section@) <= byte_limit.0,
            !has_duplicate(section@),
            !repeats_history(section@, self.kind, past_view(past_payloads@)),
            forall|j: int|
                0 <= j < section@.len() ==> occurs_among(
                    #[trigger] section@[j],
                    self@,
                    self@.len() as int,
                ),
            !has_empty_message(self@) ==> self.verdict(
                height,
                section@,
                *context,
                past_view(past_payloads@),
            ) == Ok::<NumBytes, SectionError>(NumBytes(total_bytes(section@) as u64)),
    {
        let ghost past = past_view(past_payloads@);
        let mut taken: Vec<Vec<u8>> = Vec::new();
        let mut used: u64 = 0;
        let mut i: usize = 0;
        let ghost mut offered: Seq<Seq<u8>> = Seq::empty();
        while i < self.messages.len()
            invariant
                i <= self@.len(),
                self@.len() == self.messages@.len(),
                past == past_view(past_payloads@),
                offered == Seq::new(taken@.len(), |k: int| taken@[k]@),
                pool_offer(self@, self.kind, past, byte_limit, i as nat) == (offered, false),
                used == total_bytes(offered),
                used <= byte_limit.0,
                forall|k: int|
                    0 <= k < offered.len() ==> !(#[trigger] occurs_among(offered[k], offered, k)),
                forall|k: int|
                    0 <= k < offered.len() ==> !in_history(#[trigger] offered[k], self.kind, past),
                forall|k: int|
                    0 <= k < offered.len() ==> occurs_among(
                        #[trigger] offered[k],
                        self@,
                        self@.len() as int,
                    ),
            ensures
                pool_offer(self@, self.kind, past, byte_limit, self@.len()).0 == offered,
            decreases self@.len() - i,
        {
            let message = &self.messages[i];
            assert(self@[i as int] == message@);
            let known = is_among(message, &taken, taken.len()) || is_in_history(
                message,
                self.kind,
                past_payloads,
            );
            if !known {
                let length = message.len();
                if length as u64 > byte_limit.get() - used {
                    proof {
                        lemma_pool_stays_stopped(
                            self@,
                            self.kind,
                            past,
                            byte_limit,
                            (i + 1) as nat,
                            self@.len(),
                        );
                    }
                    break;
                }
                let copy = copy_message(message);
                proof {
                    let longer = offered.push(message@);
                    assert(longer.drop_last() =~= offered);
                    assert(self@[i as int] == message@);
                    assert forall|k: int| 0 <= k < longer.len() implies !(#[trigger] occurs_among(
                        longer[k],
                        longer,
                        k,
                    )) by {
                        if k < offered.len() {
                            assert(!occurs_among(offered[k], offered, k));
                        }
                    }
                    assert forall|k: int| 0 <= k < longer.len() implies occurs_among(
                        #[trigger] longer[k],
                        self@,
                        self@.len() as int,
                    ) by {
                        if k < offered.len() {
                            assert(longer[k] == offered[k]);
                        }
                    }
                    assert forall|k: int| 0 <= k < longer.len() implies !in_history(
                        #[trigger] longer[k],
                        self.kind,
                        past,
                    ) by {
                        if k < offered.len() {
                            assert(longer[k] == offered[k]);
                        }
                    }
                    offered = longer;
                }
                used = used + length as u64;
                taken.push(copy);
                assert(offered =~= Seq::new(taken@.len(), |k: int| taken@[k]@));
            }
            i = i + 1;
        }
        let section = SectionPayload::new(taken);
        assert(section@ =~= offered);
        proof {
            if !has_empty_message(self@) {
                assert forall|j: int| 0 <= j < section@.len() implies (#[trigger] section@[j]).len()
                    > 0 by {
                    assert(occurs_among(section@[j], self@, self@.len() as int));
                }
            }
        }
        section
    }

    /// Checks that no message is empty, that none occurs twice or in a
    /// past payload, and counts the bytes of all.
    fn validate_section(
        &self,
        height: Height,
        section: &SectionPayload,
        context: &ValidationContext,
        past_payloads: &[(Height, Time, Payload)],
    ) -> (verdict: Result<NumBytes, SectionError>) {
        let ghost past = past_view(past_payloads@);
        let count = section.messages.len();
        let mut i: usize = 0;
        while i < count
            invariant
                i <= count,
                count == section@.len(),
                count == section.messages@.len(),
                forall|j: int| 0 <= j < i ==> (#[trigger] section@[j]).len() > 0,
            decreases count - i,
        {
            if section.messages[i].len() == 0 {
                assert(section@[i as int].len() == 0);
                return Err(SectionError::Malformed);
            }
            i = i + 1;
        }
        i = 0;
        while i < count
            invariant
                i <= count,
                count == section@.len(),
                count == section.messages@.len(),
                past == past_view(past_payloads@),
                !has_empty_message(section@),
                forall|j: int|
                    0 <= j < i ==> !(#[trigger] occurs_among(section@[j], section@, j)),
                forall|j: int| 0 <= j < i ==> !in_history(#[trigger] section@[j], self.kind, past),
            decreases count - i,
        {
            let message = &section.messages[i];
            assert(section@[i as int] == message@);
            if is_among(message, &section.messages, i) || is_in_history(
                message,
                self.kind,
                past_payloads,
            ) {
                return Err(SectionError::DuplicateMessage);
            }
            i = i + 1;
        }
        let mut size: u64 = 0;
        i = 0;
        assert(section@.take(0) =~= Seq::<Seq<u8>>::empty());
        while i < count
            invariant
                i <= count,
                count == section@.len(),
                count == section.messages@.len(),
                past == past_view(past_payloads@),
                !has_empty_message(section@),
                !has_duplicate(section@),
                !repeats_history(section@, self.kind, past),
                size == total_bytes(section@.take(i as int)),
            decreases count - i,
        {
            let length = section.messages[i].len();
            assert(section@[i as int].len() == length);
            assert(section@.take(i + 1).drop_last() =~= section@.take(i as int));
            if length as u64 > u64::MAX - size {
                proof {
                    lemma_total_bytes_grows(section@, i + 1, section@.len() as int);
                    assert(section@.take(section@.len() as int) =~= section@);
                }
                return Err(SectionError::Malformed);
            }
            size = size + length as u64;
            i = i + 1;
        }
        assert(section@.take(section@.len() as int) =~= section@);
        Ok(NumBytes::new(size))
    }
}

} // verus!
