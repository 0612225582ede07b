//! The size that a block payload may have, and the alarm that is raised
//! when the registry configures less than the protocol needs.

use vstd::prelude::*;
use vstd::string::StringExecFns;
use crate::text::{decimal, decimal_string};
use crate::time::Time;
use crate::types::{NumBytes, SubnetRecord};

verus! {

/// The largest inter-canister request or response, in bytes.
pub const MAX_INTER_CANISTER_PAYLOAD_IN_BYTES: u64 = 2 * 1024 * 1024;

/// The largest payload of cross-subnet messages in one block, in bytes: one
/// inter-canister payload of the largest size and its framing.
pub const MAX_XNET_PAYLOAD_IN_BYTES: u64 = MAX_INTER_CANISTER_PAYLOAD_IN_BYTES * 21 / 20;

/// The largest block of the mirrored Bitcoin chain, in bytes.
pub const MAX_BITCOIN_BLOCK_SIZE: u64 = 4 * 1024 * 1024;

/// The time that passes between two alarms about the same fault, in
/// nanoseconds.
pub const ALARM_COOLDOWN_NANOS: u64 = 300 * 1_000_000_000;

/// The larger of two sizes.
pub open spec fn larger(a: u64, b: u64) -> u64 {
    if a >= b {
        a
    } else {
        b
    }
}

/// The size that a block payload must be allowed to have so that one
/// block of the external chain, one payload of cross-subnet messages and
/// one ingress message of the largest size each fit.
pub open spec fn required_min_size(chain_floor: u64, xnet_floor: u64, record: SubnetRecord) -> u64 {
    larger(larger(chain_floor, xnet_floor), record.max_ingress_bytes_per_message)
}

/// Whether the record allows less than `required_min_size` asks for.
pub open spec fn is_misconfigured(chain_floor: u64, xnet_floor: u64, record: SubnetRecord) -> bool {
    record.max_block_payload_size < required_min_size(chain_floor, xnet_floor, record)
}

/// The size that a block payload may have under `record`: the configured
/// size, raised to the required minimum where it is smaller.
pub open spec fn resolved_size(chain_floor: u64, xnet_floor: u64, record: SubnetRecord) -> u64 {
    if is_misconfigured(chain_floor, xnet_floor, record) {
        required_min_size(chain_floor, xnet_floor, record)
    } else {
        record.max_block_payload_size
    }
}

/// The size that a block payload may have under `record`, with the floors
/// of this protocol.
pub open spec fn max_block_payload_size(record: SubnetRecord) -> u64 {
    resolved_size(MAX_BITCOIN_BLOCK_SIZE, MAX_XNET_PAYLOAD_IN_BYTES, record)
}

/// Whether `record` allows less than this protocol needs.
pub open spec fn needs_clamp(record: SubnetRecord) -> bool {
    is_misconfigured(MAX_BITCOIN_BLOCK_SIZE, MAX_XNET_PAYLOAD_IN_BYTES, record)
}

/// Computes `required_min_size`.
pub fn required_min(chain_floor: NumBytes, xnet_floor: NumBytes, record: &SubnetRecord) -> (min:
    NumBytes)
    ensures
        min.0 == required_min_size(chain_floor.0, xnet_floor.0, *record),
        min.0 >= chain_floor.0,
        min.0 >= xnet_floor.0,
        min.0 >= record.max_ingress_bytes_per_message,
{
    let mut min: u64 = chain_floor.get();
    if xnet_floor.get() > min {
        min = xnet_floor.get();
    }
    if record.max_ingress_bytes_per_message > min {
        min = record.max_ingress_bytes_per_message;
    }
    NumBytes::new(min)
}

/// Resolves the size that a block payload may have under `record`, given
/// the two fixed floors. The second component says whether the configured
/// size was too small and has been raised.
pub fn resolve_payload_size(
    chain_floor: NumBytes,
    xnet_floor: NumBytes,
    record: &SubnetRecord,
) -> (resolved: (NumBytes, bool))
    ensures
        resolved.0.0 == resolved_size(chain_floor.0, xnet_floor.0, *record),
        resolved.1 == is_misconfigured(chain_floor.0, xnet_floor.0, *record),
        resolved.0.0 >= chain_floor.0,
        resolved.0.0 >= xnet_floor.0,
        resolved.0.0 >= record.max_ingress_bytes_per_message,
        resolved.0.0 >= record.max_block_payload_size,
{
    let min = required_min(chain_floor, xnet_floor, record);
    if record.max_block_payload_size < min.get() {
        (min, true)
    } else {
        (NumBytes::new(record.max_block_payload_size), false)
    }
}

/// The name under which a misconfigured subnet record is reported.
pub const CRITICAL_ERROR_SUBNET_RECORD_ISSUE: &'static str = "consensus_subnet_record_issue";

/// The warning about a subnet record that allows `current` bytes where
/// `required` are needed.
pub open spec fn subnet_record_warning_text(current: u64, required: u64) -> Seq<char> {
    "max_block_payload_size too small. current value: "@ + decimal(current as nat)
        + ", required minimum: "@ + decimal(required as nat)
        + "! max_block_payload_size must be larger than max_ingress_bytes_per_message and MAX_XNET_PAYLOAD_IN_BYTES. Update registry! @"@
        + CRITICAL_ERROR_SUBNET_RECORD_ISSUE@
}

/// Writes the warning about a subnet record that allows `current` bytes
/// where `required` are needed. It is for the log, each time that the
/// alarm is raised.
pub fn subnet_record_warning(current: u64, required: u64) -> (text: String)
    ensures
        text@ == subnet_record_warning_text(current, required),
{
    let mut text = String::from_str("max_block_payload_size too small. current value: ");
    text.append(decimal_string(current).as_str());
    text.append(", required minimum: ");
    text.append(decimal_string(required).as_str());
    text.append(
        "! max_block_payload_size must be larger than max_ingress_bytes_per_message and MAX_XNET_PAYLOAD_IN_BYTES. Update registry! @",
    );
    text.append(CRITICAL_ERROR_SUBNET_RECORD_ISSUE);
    text
}

/// An alarm that is raised at most once in every cooldown window, and
/// counts how often it was raised.
#[derive(Clone, Copy, Debug, PartialEq, Eq, Structural)]
pub struct FaultAlarm {
    /// When the alarm was last raised.
    pub last_raised: Option<Time>,
    /// How often the alarm was raised.
    pub raised: u64,
}

impl FaultAlarm {
    /// Whether a fault seen at `now` raises the alarm: it does unless the
    /// alarm was raised less than a cooldown window before.
    pub open spec fn due(self, now: Time) -> bool {
        match self.last_raised {
            None => true,
            Some(last) => now@ - last@ >= ALARM_COOLDOWN_NANOS,
        }
    }

    /// The alarm after a fault seen at `now`.
    pub open spec fn after_fault(self, now: Time) -> FaultAlarm {
        if self.due(now) {
            FaultAlarm {
                last_raised: Some(now),
                raised: if self.raised < u64::MAX {
                    (self.raised + 1) as u64
                } else {
                    self.raised
                },
            }
        } else {
            self
        }
    }

    /// The alarm after the faults seen at `times`, in this order.
    pub open spec fn after_faults(self, times: Seq<Time>) -> FaultAlarm
        decreases times.len(),
    {
        if times.len() == 0 {
            self
        } else {
            self.after_fault(times[0]).after_faults(times.subrange(1, times.len() as int))
        }
    }

    /// An alarm that was never raised.
    pub fn new() -> (alarm: FaultAlarm)
        ensures
            alarm.last_raised is None,
            alarm.raised == 0,
    {
        FaultAlarm { last_raised: None, raised: 0 }
    }

    /// How often the alarm was raised.
    pub fn count(&self) -> (raised: u64)
        ensures
            raised == self.raised,
    {
        self.raised
    }

    /// Reports a fault seen at `now`. Returns whether this raised the
    /// alarm.
    pub fn report_fault(&mut self, now: Time) -> (raised: bool)
        ensures
            raised == old(self).due(now),
            *final(self) == old(self).after_fault(now),
    {
        let due = match self.last_raised {
            None => true,
            Some(last) => {
                let now_nanos = now.as_nanos_since_unix_epoch();
                let last_nanos = last.as_nanos_since_unix_epoch();
                now_nanos >= last_nanos && now_nanos - last_nanos >= ALARM_COOLDOWN_NANOS
            },
        };
        if due {
            self.last_raised = Some(now);
            if self.raised < u64::MAX {
                self.raised = self.raised + 1;
            }
        }
        due
    }
}

} // verus!
