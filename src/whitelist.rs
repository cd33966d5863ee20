//! The creator whitelist: which creators may launch a token while the
//! whitelist is enabled.
use crate::address::Address;
use crate::config::Config;
use crate::error::PumpfunError;
use vstd::prelude::*;

verus! {

/// One whitelist entry; its existence allows `creator` to launch.
#[derive(Clone, Copy, Debug)]
pub struct Whitelist {
    pub creator: Address,
}

/// The set of whitelist entries, at most one per creator.
pub struct WhitelistRegistry {
    entries: Vec<Whitelist>,
}

/// The whitelist after an attempt by `signer` to add `creator`, and the
/// attempt's result: only the global authority may add, and only a creator
/// not yet listed.
pub open spec fn add_spec(
    entries: Set<Address>,
    config: Config,
    signer: Address,
    creator: Address,
) -> (Result<(), PumpfunError>, Set<Address>) {
    if signer != config.global_authority {
        (Err(PumpfunError::InvalidGlobalAuthority), entries)
    } else if entries.contains(creator) {
        (Err(PumpfunError::WhitelistEntryExists), entries)
    } else {
        (Ok(()), entries.insert(creator))
    }
}

/// The whitelist after an attempt by `signer` to remove `creator`, and the
/// attempt's result: only the global authority may remove, and only a
/// listed creator.
pub open spec fn remove_spec(
    entries: Set<Address>,
    config: Config,
    signer: Address,
    creator: Address,
) -> (Result<(), PumpfunError>, Set<Address>) {
    if signer != config.global_authority {
        (Err(PumpfunError::InvalidGlobalAuthority), entries)
    } else if !entries.contains(creator) {
        (Err(PumpfunError::WhitelistEntryMissing), entries)
    } else {
        (Ok(()), entries.remove(creator))
    }
}

/// Adding a creator and then removing it leaves no entry for that creator,
/// restores the whitelist as it was, and allows adding the creator again.
pub proof fn lemma_add_then_remove(
    entries: Set<Address>,
    config: Config,
    signer: Address,
    creator: Address,
)
    requires
        add_spec(entries, config, signer, creator).0 is Ok,
    ensures
        ({
            let added = add_spec(entries, config, signer, creator).1;
            let removed = remove_spec(added, config, signer, creator);
            &&& removed.0 is Ok
            &&& !removed.1.contains(creator)
            &&& removed.1 == entries
            &&& add_spec(removed.1, config, signer, creator).0 is Ok
        }),
{
    let added = entries.insert(creator);
    assert(added.remove(creator) =~= entries);
}

impl WhitelistRegistry {
    /// The creators that have an entry.
    pub closed spec fn view(&self) -> Set<Address> {
        Set::new(
            |a: Address|
                exists|i: int| 0 <= i < self.entries@.len() && self.entries@[i].creator == a,
        )
    }

    /// At most one entry per creator.
    pub closed spec fn wf(&self) -> bool {
        forall|i: int, j: int|
            0 <= i < j < self.entries@.len() ==> self.entries@[i].creator
                != self.entries@[j].creator
    }

    /// An empty whitelist.
    pub fn new() -> (r: WhitelistRegistry)
        ensures
            r.wf(),
            r.view() == Set::<Address>::empty(),
    {
        let r = WhitelistRegistry { entries: Vec::new() };
        assert(r.view() =~= Set::<Address>::empty());
        r
    }

    /// The position of `creator`'s entry, if any.
    fn find(&self, creator: Address) -> (r: Option<usize>)
        ensures
            r matches Some(i) ==> i < self.entries@.len() && self.entries@[i as int].creator
                == creator,
            r is None ==> !self.view().contains(creator),
    {
        let mut i: usize = 0;
        while i < self.entries.len()
            invariant
                0 <= i <= self.entries@.len(),
                forall|j: int| 0 <= j < i ==> self.entries@[j].creator != creator,
            decreases self.entries@.len() - i,
        {
            if self.entries[i].creator == creator {
                return Some(i);
            }
            i = i + 1;
        }
        None
    }

    /// Whether `creator` has an entry.
    pub fn contains(&self, creator: Address) -> (r: bool)
        ensures
            r == self.view().contains(creator),
    {
        match self.find(creator) {
            Some(i) => {
                assert(self.entries@[i as int].creator == creator);
                true
            },
            None => false,
        }
    }

    /// Adds an entry for `new_creator`; only the global authority may do so.
    pub fn add_wl(&mut self, config: &Config, signer: Address, new_creator: Address) -> (r: Result<
        (),
        PumpfunError,
    >)
        requires
            old(self).wf(),
        ensures
            final(self).wf(),
            (r, final(self).view()) == add_spec(old(self).view(), *config, signer, new_creator),
    {
        if signer != config.global_authority {
            return Err(PumpfunError::InvalidGlobalAuthority);
        }
        if self.contains(new_creator) {
            return Err(PumpfunError::WhitelistEntryExists);
        }
        let ghost before = self.entries@;
        self.entries.push(Whitelist { creator: new_creator });
        proof {
            assert(self.entries@ == before.push(Whitelist { creator: new_creator }));
            assert forall|a: Address| self.view().contains(a) == old(self).view().insert(
                new_creator,
            ).contains(a) by {
                if old(self).view().contains(a) {
                    let i = choose|i: int| 0 <= i < before.len() && before[i].creator == a;
                    assert(self.entries@[i].creator == a);
                }
                if a == new_creator {
                    assert(self.entries@[before.len() as int].creator == a);
                }
                if self.view().contains(a) && a != new_creator {
                    let i = choose|i: int|
                        0 <= i < self.entries@.len() && self.entries@[i].creator == a;
                    assert(before[i].creator == a);
                }
            }
            assert(self.view() =~= old(self).view().insert(new_creator));
        }
        Ok(())
    }

    /// Removes the entry for `creator`; only the global authority may do so.
    pub fn remove_wl(&mut self, config: &Config, signer: Address, creator: Address) -> (r: Result<
        (),
        PumpfunError,
    >)
        requires
            old(self).wf(),
        ensures
            final(self).wf(),
            (r, final(self).view()) == remove_spec(old(self).view(), *config, signer, creator),
    {
        if signer != config.global_authority {
            return Err(PumpfunError::InvalidGlobalAuthority);
        }
        let k = match self.find(creator) {
            Some(k) => k,
            None => {
                return Err(PumpfunError::WhitelistEntryMissing);
            },
        };
        let ghost before = self.entries@;
        self.entries.remove(k);
        proof {
            assert(self.entries@ == before.remove(k as int));
            assert forall|a: Address| self.view().contains(a) == old(self).view().remove(
                creator,
            ).contains(a) by {
                if self.view().contains(a) {
                    let i = choose|i: int|
                        0 <= i < self.entries@.len() && self.entries@[i].creator == a;
                    if i < k {
                        assert(before[i].creator == a);
                        assert(a != creator);
                    } else {
                        assert(before[i + 1].creator == a);
                        assert(a != creator);
                    }
                }
                if old(self).view().contains(a) && a != creator {
                    let i = choose|i: int| 0 <= i < before.len() && before[i].creator == a;
                    if i < k {
                        assert(self.entries@[i].creator == a);
                    } else {
                        assert(i != k);
                        assert(self.entries@[i - 1].creator == a);
                    }
                }
            }
            assert(self.view() =~= old(self).view().remove(creator));
        }
        Ok(())
    }
}

} // verus!
