//! What the payload builder counts while it works.

use vstd::prelude::*;
use crate::budget::FaultAlarm;
use crate::time::Time;

verus! {

/// The observations of one quantity: how many they are, and their sum.
/// Both stop at the largest number.
#[derive(Clone, Copy, Debug, PartialEq, Eq, Structural)]
pub struct Histogram {
    /// The number of observations.
    pub count: u64,
    /// The sum of what was observed.
    pub sum: u64,
}

/// The sum of two numbers, which stops at the largest.
pub open spec fn capped_sum(a: u64, b: u64) -> u64 {
    if a + b > u64::MAX {
        u64::MAX
    } else {
        (a + b) as u64
    }
}

impl Histogram {
    /// The histogram after `value` was observed.
    pub open spec fn observed(self, value: u64) -> Histogram {
        Histogram { count: capped_sum(self.count, 1), sum: capped_sum(self.sum, value) }
    }

    /// A histogram without observations.
    pub fn new() -> (histogram: Histogram)
        ensures
            histogram.count == 0,
            histogram.sum == 0,
    {
        Histogram { count: 0, sum: 0 }
    }

    /// Takes one observation.
    pub fn observe(&mut self, value: u64)
        ensures
            *final(self) == old(self).observed(value),
    {
        if self.count < u64::MAX {
            self.count = self.count + 1;
        }
        if value <= u64::MAX - self.sum {
            self.sum = self.sum + value;
        } else {
            self.sum = u64::MAX;
        }
    }
}

/// The counters of a payload builder. They record what happened and
/// decide nothing.
#[derive(Clone, Copy, Debug, PartialEq, Eq, Structural)]
pub struct PayloadBuilderMetrics {
    /// How long the payloads took to build, in nanoseconds.
    pub get_payload_duration: Histogram,
    /// How long the payloads took to validate, in nanoseconds.
    pub validate_payload_duration: Histogram,
    /// How many past payloads the builds were given.
    pub past_payloads_length: Histogram,
    /// Raised when a subnet record allows less than the protocol needs.
    pub critical_error_subnet_record_data_issue: FaultAlarm,
    /// Counts the sections that were built and then did not pass their own
    /// validation.
    pub critical_error_validation_not_passed: u64,
}

impl PayloadBuilderMetrics {
    /// The metrics after a build that took `nanos` nanoseconds.
    pub open spec fn with_get_payload_duration(self, nanos: u64) -> PayloadBuilderMetrics {
        PayloadBuilderMetrics {
            get_payload_duration: self.get_payload_duration.observed(nanos),
            ..self
        }
    }

    /// The metrics after a validation that took `nanos` nanoseconds.
    pub open spec fn with_validate_payload_duration(self, nanos: u64) -> PayloadBuilderMetrics {
        PayloadBuilderMetrics {
            validate_payload_duration: self.validate_payload_duration.observed(nanos),
            ..self
        }
    }

    /// The metrics after a build that was given `length` past payloads.
    pub open spec fn with_past_payloads(self, length: u64) -> PayloadBuilderMetrics {
        PayloadBuilderMetrics {
            past_payloads_length: self.past_payloads_length.observed(length),
            ..self
        }
    }

    /// The metrics after a section was built that did not pass validation.
    pub open spec fn with_validation_fault(self) -> PayloadBuilderMetrics {
        PayloadBuilderMetrics {
            critical_error_validation_not_passed: capped_sum(
                self.critical_error_validation_not_passed,
                1,
            ),
            ..self
        }
    }

    /// The metrics after a misconfigured subnet record was seen at `now`.
    pub open spec fn with_subnet_record_issue(self, now: Time) -> PayloadBuilderMetrics {
        PayloadBuilderMetrics {
            critical_error_subnet_record_data_issue:
                self.critical_error_subnet_record_data_issue.after_fault(now),
            ..self
        }
    }

    /// The metrics in which nothing has been counted.
    pub open spec fn zero() -> PayloadBuilderMetrics {
        PayloadBuilderMetrics {
            get_payload_duration: Histogram { count: 0, sum: 0 },
            validate_payload_duration: Histogram { count: 0, sum: 0 },
            past_payloads_length: Histogram { count: 0, sum: 0 },
            critical_error_subnet_record_data_issue: FaultAlarm { last_raised: None, raised: 0 },
            critical_error_validation_not_passed: 0,
        }
    }

    /// These metrics with another count of the sections that did not pass
    /// validation.
    pub open spec fn with_validation_faults(self, faults: u64) -> PayloadBuilderMetrics {
        PayloadBuilderMetrics { critical_error_validation_not_passed: faults, ..self }
    }

    /// Metrics in which nothing has been counted.
    pub fn new() -> (metrics: PayloadBuilderMetrics)
        ensures
            metrics == PayloadBuilderMetrics::zero(),
    {
        PayloadBuilderMetrics {
            get_payload_duration: Histogram::new(),
            validate_payload_duration: Histogram::new(),
            past_payloads_length: Histogram::new(),
            critical_error_subnet_record_data_issue: FaultAlarm::new(),
            critical_error_validation_not_passed: 0,
        }
    }

    /// Records how long a build took.
    pub fn observe_get_payload_duration(&mut self, nanos: u64)
        ensures
            *final(self) == old(self).with_get_payload_duration(nanos),
    {
        self.get_payload_duration.observe(nanos);
    }

    /// Records how long a validation took.
    pub fn observe_validate_payload_duration(&mut self, nanos: u64)
        ensures
            *final(self) == old(self).with_validate_payload_duration(nanos),
    {
        self.validate_payload_duration.observe(nanos);
    }

    /// Records the number of past payloads that a build was given.
    pub fn observe_past_payloads(&mut self, length: u64)
        ensures
            *final(self) == old(self).with_past_payloads(length),
    {
        self.past_payloads_length.observe(length);
    }

    /// Counts a section that was built and did not pass validation.
    pub fn count_validation_fault(&mut self)
        ensures
            *final(self) == old(self).with_validation_fault(),
    {
        if self.critical_error_validation_not_passed < u64::MAX {
            self.critical_error_validation_not_passed = self.critical_error_validation_not_passed
                + 1;
        }
    }

    /// Reports a misconfigured subnet record seen at `now`. Returns whether
    /// this raised the alarm.
    pub fn report_subnet_record_issue(&mut self, now: Time) -> (raised: bool)
        ensures
            raised == old(self).critical_error_subnet_record_data_issue.due(now),
            *final(self) == old(self).with_subnet_record_issue(now),
    {
        self.critical_error_subnet_record_data_issue.report_fault(now)
    }
}

} // verus!
