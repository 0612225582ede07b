//! Read access to the registry, and a registry that is held in memory.

use vstd::prelude::*;
use crate::types::{RegistryVersion, SubnetId, SubnetRecord};

verus! {

/// Why the registry hands out no subnet record.
#[derive(Clone, Copy, Debug, PartialEq, Eq, Structural, Hash)]
pub enum RegistryError {
    /// The registry holds no record of the subnet at the version asked for.
    NotFound,
    /// The registry cannot be read at the version asked for.
    Unavailable,
}

/// Read access to the registry.
///
/// Whether a lookup can be completed may differ from call to call:
/// `answers` tells what the registry may answer.
pub trait RegistryClient {
    /// Whether the registry may answer `lookup` when it is asked for the
    /// record of `subnet_id` at `version`.
    spec fn answers(
        &self,
        subnet_id: SubnetId,
        version: RegistryVersion,
        lookup: Result<SubnetRecord, RegistryError>,
    ) -> bool;

    /// The record of the subnet at the given version of the registry.
    fn get_subnet_record(&self, subnet_id: SubnetId, version: RegistryVersion) -> (lookup: Result<
        SubnetRecord,
        RegistryError,
    >)
        ensures
            self.answers(subnet_id, version, lookup),
    ;
}

/// The record that a subnet was given at a version of the registry.
#[derive(Clone, Copy, Debug, PartialEq, Eq, Structural, Hash)]
pub struct RegistryEntry {
    pub subnet_id: SubnetId,
    pub version: RegistryVersion,
    pub record: SubnetRecord,
}

/// A registry in memory: the records that subnets were given, up to the
/// latest version that is known here. The record of a subnet at a version
/// is the one that it was given last, at that version or before.
#[derive(Clone, Debug, PartialEq, Eq)]
pub struct LocalRegistry {
    /// The latest version that is known. Later versions cannot be read.
    pub latest_version: RegistryVersion,
    /// The records, in the order in which they were given.
    pub entries: Vec<RegistryEntry>,
}

/// Whether an entry gives the subnet a record at `version` or before.
pub open spec fn applies(entry: RegistryEntry, subnet_id: SubnetId, version: RegistryVersion) -> bool {
    entry.subnet_id == subnet_id && entry.version.0 <= version.0
}

/// Among the first `count` entries, the one that gives the subnet its
/// record at `version`: of those that apply, the one of the latest
/// version, and of several of that version the last.
pub open spec fn latest_upto(
    entries: Seq<RegistryEntry>,
    subnet_id: SubnetId,
    version: RegistryVersion,
    count: nat,
) -> Option<RegistryEntry>
    decreases count,
{
    if count == 0 {
        None
    } else {
        let earlier = latest_upto(entries, subnet_id, version, (count - 1) as nat);
        let entry = entries[count - 1];
        if applies(entry, subnet_id, version) && (earlier is None || earlier->Some_0.version.0
            <= entry.version.0) {
            Some(entry)
        } else {
            earlier
        }
    }
}

/// The entry that `latest_upto` finds applies, is one of the entries, and
/// no entry that applies is of a later version. It finds one wherever one
/// applies.
pub proof fn lemma_latest_is_latest(
    entries: Seq<RegistryEntry>,
    subnet_id: SubnetId,
    version: RegistryVersion,
    count: nat,
)
    requires
        count <= entries.len(),
    ensures
        match latest_upto(entries, subnet_id, version, count) {
            Some(found) => {
                &&& applies(found, subnet_id, version)
                &&& exists|i: int| 0 <= i < count && entries[i] == found
                &&& forall|i: int|
                    0 <= i < count && applies(#[trigger] entries[i], subnet_id, version)
                        ==> entries[i].version.0 <= found.version.0
            },
            None => forall|i: int|
                0 <= i < count ==> !applies(#[trigger] entries[i], subnet_id, version),
        },
    decreases count,
{
    if count > 0 {
        lemma_latest_is_latest(entries, subnet_id, version, (count - 1) as nat);
        let earlier = latest_upto(entries, subnet_id, version, (count - 1) as nat);
        let found = latest_upto(entries, subnet_id, version, count);
        if found is Some {
            if found == earlier {
                let i = choose|i: int| 0 <= i < count - 1 && entries[i] == found->Some_0;
                assert(entries[i] == found->Some_0);
            } else {
                assert(entries[count - 1] == found->Some_0);
            }
        }
    }
}

impl LocalRegistry {
    /// What the registry answers when it is asked for the record of
    /// `subnet_id` at `version`.
    pub open spec fn lookup(&self, subnet_id: SubnetId, version: RegistryVersion) -> Result<
        SubnetRecord,
        RegistryError,
    > {
        if version.0 > self.latest_version.0 {
            Err(RegistryError::Unavailable)
        } else {
            match latest_upto(self.entries@, subnet_id, version, self.entries@.len()) {
                Some(entry) => Ok(entry.record),
                None => Err(RegistryError::NotFound),
            }
        }
    }

    /// A registry that knows the versions up to `latest_version`, and no
    /// record yet.
    pub fn new(latest_version: RegistryVersion) -> (registry: LocalRegistry)
        ensures
            registry.latest_version == latest_version,
            registry.entries@ == Seq::<RegistryEntry>::empty(),
    {
        LocalRegistry { latest_version, entries: Vec::new() }
    }

    /// Gives a subnet a record at a version. A version that is later than
    /// the latest known becomes the latest known.
    pub fn insert(&mut self, subnet_id: SubnetId, version: RegistryVersion, record: SubnetRecord)
        ensures
            final(self).entries@ == old(self).entries@.push(
                RegistryEntry { subnet_id, version, record },
            ),
            final(self).latest_version.0 == if version.0 > old(self).latest_version.0 {
                version.0
            } else {
                old(self).latest_version.0
            },
    {
        self.entries.push(RegistryEntry { subnet_id, version, record });
        if version.0 > self.latest_version.0 {
            self.latest_version = version;
        }
    }
}

impl RegistryClient for LocalRegistry {
    open spec fn answers(
        &self,
        subnet_id: SubnetId,
        version: RegistryVersion,
        lookup: Result<SubnetRecord, RegistryError>,
    ) -> bool {
        lookup == self.lookup(subnet_id, version)
    }

    /// The record that the subnet was given last, at `version` or
    /// before. A version that is later than the latest known cannot be
    /// read.
    fn get_subnet_record(&self, subnet_id: SubnetId, version: RegistryVersion) -> (lookup: Result<
        SubnetRecord,
        RegistryError,
    >) {
        if version.0 > self.latest_version.0 {
            return Err(RegistryError::Unavailable);
        }
        let mut found: Option<RegistryEntry> = None;
        let mut i: usize = 0;
        while i < self.entries.len()
            invariant
                i <= self.entries@.len(),
                found == latest_upto(self.entries@, subnet_id, version, i as nat),
            decreases self.entries@.len() - i,
        {
            let entry = self.entries[i];
            if entry.subnet_id.0 == subnet_id.0 && entry.version.0 <= version.0 {
                let later = match found {
                    None => true,
                    Some(earlier) => earlier.version.0 <= entry.version.0,
                };
                if later {
                    found = Some(entry);
                }
            }
            i = i + 1;
        }
        match found {
            Some(entry) => Ok(entry.record),
            None => Err(RegistryError::NotFound),
        }
    }
}

} // verus!
