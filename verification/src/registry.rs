//! The connection registry: the process-local mapping from a profile
//! identity to its currently-live real-time channel.
//!
//! Channels themselves live at the process edge; the registry maps a
//! profile to a plain channel handle.  The registry holds no message
//! data and is never durable.  It is a sequential value: concurrent
//! connection-handling tasks must share it behind mutual exclusion at
//! the process edge.

use vstd::prelude::*;

verus! {

/// One live registration.
#[derive(Debug, Clone, PartialEq)]
pub struct RegistryEntry {
    pub profile_id: String,
    pub channel: u64,
}

/// The mapping the entries denote, later registrations winning.
pub open spec fn map_of(s: Seq<RegistryEntry>) -> Map<Seq<char>, u64>
    decreases s.len(),
{
    if s.len() == 0 {
        Map::empty()
    } else {
        map_of(s.drop_last()).insert(s.last().profile_id@, s.last().channel)
    }
}

/// Process-local profile-to-channel mapping.
#[derive(Debug, Clone, PartialEq)]
pub struct ConnectionRegistry {
    pub entries: Vec<RegistryEntry>,
}

impl ConnectionRegistry {
    /// The mapping as a whole: at most one live channel per profile.
    pub open spec fn as_map(self) -> Map<Seq<char>, u64> {
        map_of(self.entries@)
    }

    pub fn new() -> (r: Self)
        ensures
            r.as_map() == Map::<Seq<char>, u64>::empty(),
    {
        ConnectionRegistry { entries: Vec::new() }
    }

    /// Registers `channel` for `profile_id`, replacing any prior
    /// channel for that identity: last registration wins.
    pub fn register(&mut self, profile_id: String, channel: u64)
        ensures
            final(self).as_map() == old(self).as_map().insert(profile_id@, channel),
    {
        self.unregister(&profile_id);
        let ghost mid = self.entries@;
        self.entries.push(RegistryEntry { profile_id, channel });
        proof {
            assert(self.entries@.drop_last() =~= mid);
            assert(self.as_map() =~= old(self).as_map().insert(
                self.entries@.last().profile_id@,
                channel,
            ));
        }
    }

    /// Removes the mapping for `profile_id` if present; idempotent, and
    /// never a failure when the identity is absent.
    pub fn unregister(&mut self, profile_id: &String)
        ensures
            final(self).as_map() == old(self).as_map().remove(profile_id@),
    {
        let mut kept: Vec<RegistryEntry> = Vec::new();
        let mut i: usize = 0;
        while i < self.entries.len()
            invariant
                i <= self.entries@.len(),
                self.entries == old(self).entries,
                map_of(kept@) == map_of(self.entries@.take(i as int)).remove(profile_id@),
            decreases self.entries@.len() - i,
        {
            let ghost taken = self.entries@.take(i as int);
            let ghost kept0 = kept@;
            let e = &self.entries[i];
            if !(e.profile_id == *profile_id) {
                kept.push(RegistryEntry { profile_id: e.profile_id.clone(), channel: e.channel });
            }
            proof {
                assert(self.entries@.take(i as int + 1).drop_last() =~= taken);
                assert(self.entries@.take(i as int + 1).last() == self.entries@[i as int]);
                if self.entries@[i as int].profile_id@ == profile_id@ {
                    assert(map_of(self.entries@.take(i as int + 1)).remove(profile_id@)
                        =~= map_of(taken).remove(profile_id@));
                } else {
                    assert(kept@.drop_last() =~= kept0);
                    assert(map_of(kept@) =~= map_of(self.entries@.take(i as int + 1)).remove(
                        profile_id@,
                    ));
                }
            }
            i = i + 1;
        }
        proof {
            assert(self.entries@.take(self.entries@.len() as int) =~= self.entries@);
        }
        self.entries = kept;
    }

    /// The live channel for `profile_id`, or `None` when the profile is
    /// offline — a normal outcome, not a failure.
    pub fn lookup(&self, profile_id: &String) -> (r: Option<u64>)
        ensures
            r == if self.as_map().contains_key(profile_id@) {
                Some(self.as_map()[profile_id@])
            } else {
                Option::<u64>::None
            },
    {
        let mut found: Option<u64> = None;
        let mut i: usize = 0;
        while i < self.entries.len()
            invariant
                i <= self.entries@.len(),
                found == if map_of(self.entries@.take(i as int)).contains_key(profile_id@) {
                    Some(map_of(self.entries@.take(i as int))[profile_id@])
                } else {
                    Option::<u64>::None
                },
            decreases self.entries@.len() - i,
        {
            let ghost taken = self.entries@.take(i as int);
            if self.entries[i].profile_id == *profile_id {
                found = Some(self.entries[i].channel);
            }
            proof {
                assert(self.entries@.take(i as int + 1).drop_last() =~= taken);
                assert(self.entries@.take(i as int + 1).last() == self.entries@[i as int]);
            }
            i = i + 1;
        }
        proof {
            assert(self.entries@.take(self.entries@.len() as int) =~= self.entries@);
        }
        found
    }
}

} // verus!
