//! The mint-phase list: an arena of nodes keyed by id, linked into a
//! doubly-linked list anchored at the immutable sentinel with id 0.
//! Phases are strictly time-ordered and non-overlapping; a phase is
//! inserted at the tail or right after a named phase, and removal
//! re-links both neighbours in the same call.

use vstd::prelude::*;

use crate::launchpad::{
    ContractError, Launchpad, LaunchpadInfo, MintableResponse, PhaseConfig,
    PhaseConfigResponse, PhaseData,
};
use crate::store::{contains_key, lookup};

verus! {

/// Whether a window `[start, end]` fits between the named neighbours:
/// properly ordered, not in the past when it would open the list, after
/// the previous phase's end, and before the next phase's start.
pub open spec fn spec_verify_phase_time(
    phases: Seq<(u64, PhaseConfig)>,
    last_phase_id: u64,
    now: u64,
    previous_phase_id: Option<u64>,
    next_phase_id: Option<u64>,
    start_time: u64,
    end_time: u64,
) -> bool {
    &&& start_time <= end_time
    &&& (last_phase_id == 0 ==> start_time >= now)
    &&& match previous_phase_id {
        None => lookup(phases, last_phase_id) matches Some(lc) && start_time >= lc.end_time,
        Some(p) => (lookup(phases, p) matches Some(pc) && start_time >= pc.end_time)
            && (match next_phase_id {
            Some(n) => lookup(phases, n) matches Some(nc) && end_time <= nc.start_time,
            None => true,
        }),
    }
}

impl Launchpad {
    /// Checks a phase window against its would-be neighbours.
    pub fn verify_phase_time(
        &self,
        now: u64,
        previous_phase_id: Option<u64>,
        next_phase_id: Option<u64>,
        start_time: u64,
        end_time: u64,
    ) -> (r: bool)
        requires
            self.wf(),
        ensures
            r == spec_verify_phase_time(
                self.phases@,
                self.info.last_phase_id,
                now,
                previous_phase_id,
                next_phase_id,
                start_time,
                end_time,
            ),
    {
        if start_time > end_time {
            return false;
        }
        if self.info.last_phase_id == 0 && start_time < now {
            return false;
        }
        match previous_phase_id {
            None => {
                match self.phases.get(&self.info.last_phase_id) {
                    Some(lc) => start_time >= lc.end_time,
                    None => false,
                }
            },
            Some(p) => {
                let prev_ok = match self.phases.get(&p) {
                    Some(pc) => start_time >= pc.end_time,
                    None => false,
                };
                if !prev_ok {
                    return false;
                }
                match next_phase_id {
                    Some(n) => match self.phases.get(&n) {
                        Some(nc) => end_time <= nc.start_time,
                        None => false,
                    },
                    None => true,
                }
            },
        }
    }

    /// Adds a mint phase, either right after `after_phase_id` or at the
    /// tail of the list, re-linking both neighbours atomically with the
    /// insertion.  Admin only, and only before the launchpad starts.
    /// The new phase's id is the next issuance-counter value; ids are
    /// never reused.
    pub fn add_mint_phase(
        &mut self,
        now: u64,
        sender: &String,
        after_phase_id: Option<u64>,
        phase_data: PhaseData,
    ) -> (r: Result<u64, ContractError>)
        requires
            old(self).wf(),
            old(self).info.last_issued_id < u64::MAX,
        ensures
            final(self).wf(),
            final(self).config == old(self).config,
            final(self).whitelist@ == old(self).whitelist@,
            final(self).remaining_token_ids@ == old(self).remaining_token_ids@,
            final(self).random_seed == old(self).random_seed,
            r is Ok <==> {
                &&& !old(self).spec_is_started(now)
                &&& sender@ == old(self).config.admin@
                &&& match after_phase_id {
                    Some(y) => contains_key(old(self).phases@, y)
                        && spec_verify_phase_time(
                        old(self).phases@,
                        old(self).info.last_phase_id,
                        now,
                        Some(y),
                        lookup(old(self).phases@, y)->0.next_phase_id,
                        phase_data.start_time,
                        phase_data.end_time,
                    ),
                    None => contains_key(old(self).phases@, old(self).info.last_phase_id)
                        && spec_verify_phase_time(
                        old(self).phases@,
                        old(self).info.last_phase_id,
                        now,
                        None,
                        None,
                        phase_data.start_time,
                        phase_data.end_time,
                    ),
                }
            },
            r matches Ok(x) ==> {
                let s0 = old(self).phases@;
                let s1 = final(self).phases@;
                &&& x == old(self).info.last_issued_id + 1
                &&& final(self).info.last_issued_id == x
                &&& !contains_key(s0, x)
                &&& match after_phase_id {
                    Some(y) => {
                        let yc = lookup(s0, y)->0;
                        &&& lookup(s1, x) == Some(
                            PhaseConfig {
                                previous_phase_id: Some(y),
                                next_phase_id: yc.next_phase_id,
                                start_time: phase_data.start_time,
                                end_time: phase_data.end_time,
                                max_supply: phase_data.max_supply,
                                total_supply: 0,
                                max_nfts_per_address: phase_data.max_nfts_per_address,
                                price: phase_data.price,
                                is_public: phase_data.is_public,
                            },
                        )
                        &&& lookup(s1, y) == Some(
                            PhaseConfig { next_phase_id: Some(x), ..yc },
                        )
                        &&& (yc.next_phase_id matches Some(n) ==> (n != y ==> (match lookup(
                            s0,
                            n,
                        ) {
                            Some(nc) => lookup(s1, n) == Some(
                                PhaseConfig { previous_phase_id: Some(x), ..nc },
                            ),
                            None => !contains_key(s1, n),
                        })))
                        &&& forall|k2: u64|
                            k2 != x && k2 != y && (yc.next_phase_id matches Some(n) ==> k2
                                != n) ==> lookup(s1, k2) == lookup(s0, k2)
                        &&& final(self).info == (if yc.next_phase_id is None {
                            LaunchpadInfo {
                                last_issued_id: x,
                                last_phase_id: x,
                                ..old(self).info
                            }
                        } else {
                            LaunchpadInfo { last_issued_id: x, ..old(self).info }
                        })
                    },
                    None => {
                        let y = old(self).info.last_phase_id;
                        let yc = lookup(s0, y)->0;
                        &&& lookup(s1, x) == Some(
                            PhaseConfig {
                                previous_phase_id: Some(y),
                                next_phase_id: None,
                                start_time: phase_data.start_time,
                                end_time: phase_data.end_time,
                                max_supply: phase_data.max_supply,
                                total_supply: 0,
                                max_nfts_per_address: phase_data.max_nfts_per_address,
                                price: phase_data.price,
                                is_public: phase_data.is_public,
                            },
                        )
                        &&& lookup(s1, y) == Some(
                            PhaseConfig { next_phase_id: Some(x), ..yc },
                        )
                        &&& forall|k2: u64|
                            k2 != x && k2 != y ==> lookup(s1, k2) == lookup(s0, k2)
                        &&& final(self).info == (LaunchpadInfo {
                            last_issued_id: x,
                            last_phase_id: x,
                            ..old(self).info
                        })
                    },
                }
            },
            r is Err ==> final(self).phases@ == old(self).phases@ && final(self).info == old(
                self,
            ).info,
            r matches Err(e) ==> {
                if old(self).spec_is_started(now) {
                    e == (ContractError::LaunchpadStarted {})
                } else if sender@ != old(self).config.admin@ {
                    e == (ContractError::Unauthorized {})
                } else {
                    match after_phase_id {
                        Some(y) => {
                            if !contains_key(old(self).phases@, y) {
                                e == (ContractError::NotFound {})
                            } else {
                                e == (ContractError::InvalidPhaseTime {})
                            }
                        },
                        None => {
                            if !contains_key(
                                old(self).phases@,
                                old(self).info.last_phase_id,
                            ) {
                                e == (ContractError::NotFound {})
                            } else {
                                e == (ContractError::InvalidPhaseTime {})
                            }
                        },
                    }
                }
            },
    {
        if self.is_launchpad_started(now) {
            return Err(ContractError::LaunchpadStarted {});
        }
        if *sender != self.config.admin {
            return Err(ContractError::Unauthorized {});
        }
        let x = self.info.last_issued_id + 1;
        match after_phase_id {
            Some(y) => {
                let yc = match self.phases.get(&y) {
                    Some(c) => c.duplicate(),
                    None => {
                        return Err(ContractError::NotFound {});
                    },
                };
                let next = yc.next_phase_id;
                if !self.verify_phase_time(
                    now,
                    Some(y),
                    next,
                    phase_data.start_time,
                    phase_data.end_time,
                ) {
                    return Err(ContractError::InvalidPhaseTime {});
                }
                self.info.last_issued_id = x;
                let node = PhaseConfig {
                    previous_phase_id: Some(y),
                    next_phase_id: next,
                    start_time: phase_data.start_time,
                    end_time: phase_data.end_time,
                    max_supply: phase_data.max_supply,
                    total_supply: 0,
                    max_nfts_per_address: phase_data.max_nfts_per_address,
                    price: phase_data.price.duplicate(),
                    is_public: phase_data.is_public,
                };
                self.phases.save(x, node);
                self.phases.save(y, PhaseConfig { next_phase_id: Some(x), ..yc });
                if let Some(n) = next {
                    let nc = match self.phases.get(&n) {
                        Some(c) => Some(c.duplicate()),
                        None => None,
                    };
                    if let Some(nc) = nc {
                        if n != y {
                            self.phases.save(
                                n,
                                PhaseConfig { previous_phase_id: Some(x), ..nc },
                            );
                        }
                    }
                }
                if next.is_none() {
                    self.info.last_phase_id = x;
                }
                Ok(x)
            },
            None => {
                let y = self.info.last_phase_id;
                let yc = match self.phases.get(&y) {
                    Some(c) => c.duplicate(),
                    None => {
                        return Err(ContractError::NotFound {});
                    },
                };
                if !self.verify_phase_time(
                    now,
                    None,
                    None,
                    phase_data.start_time,
                    phase_data.end_time,
                ) {
                    return Err(ContractError::InvalidPhaseTime {});
                }
                self.info.last_issued_id = x;
                let node = PhaseConfig {
                    previous_phase_id: Some(y),
                    next_phase_id: None,
                    start_time: phase_data.start_time,
                    end_time: phase_data.end_time,
                    max_supply: phase_data.max_supply,
                    total_supply: 0,
                    max_nfts_per_address: phase_data.max_nfts_per_address,
                    price: phase_data.price.duplicate(),
                    is_public: phase_data.is_public,
                };
                self.phases.save(x, node);
                self.phases.save(y, PhaseConfig { next_phase_id: Some(x), ..yc });
                self.info.last_phase_id = x;
                Ok(x)
            },
        }
    }
}

impl Launchpad {
    /// Re-configures an existing phase in place; its links and its
    /// minted counter are kept.  Admin only, before the launchpad
    /// starts, and the new window must still fit the neighbours.
    pub fn update_mint_phase(
        &mut self,
        now: u64,
        sender: &String,
        phase_id: u64,
        phase_data: PhaseData,
    ) -> (r: Result<(), ContractError>)
        requires
            old(self).wf(),
        ensures
            final(self).wf(),
            final(self).config == old(self).config,
            final(self).info == old(self).info,
            final(self).whitelist@ == old(self).whitelist@,
            final(self).remaining_token_ids@ == old(self).remaining_token_ids@,
            final(self).random_seed == old(self).random_seed,
            r is Ok <==> {
                &&& !old(self).spec_is_started(now)
                &&& sender@ == old(self).config.admin@
                &&& lookup(old(self).phases@, phase_id) matches Some(c)
                    && spec_verify_phase_time(
                    old(self).phases@,
                    old(self).info.last_phase_id,
                    now,
                    c.previous_phase_id,
                    c.next_phase_id,
                    phase_data.start_time,
                    phase_data.end_time,
                )
            },
            r is Ok ==> {
                let c = lookup(old(self).phases@, phase_id)->0;
                &&& lookup(final(self).phases@, phase_id) == Some(
                    PhaseConfig {
                        previous_phase_id: c.previous_phase_id,
                        next_phase_id: c.next_phase_id,
                        start_time: phase_data.start_time,
                        end_time: phase_data.end_time,
                        max_supply: phase_data.max_supply,
                        total_supply: c.total_supply,
                        max_nfts_per_address: phase_data.max_nfts_per_address,
                        price: phase_data.price,
                        is_public: phase_data.is_public,
                    },
                )
                &&& forall|k2: u64|
                    k2 != phase_id ==> lookup(final(self).phases@, k2) == lookup(
                        old(self).phases@,
                        k2,
                    )
            },
            r is Err ==> final(self).phases@ == old(self).phases@,
            r matches Err(e) ==> {
                if old(self).spec_is_started(now) {
                    e == (ContractError::LaunchpadStarted {})
                } else if sender@ != old(self).config.admin@ {
                    e == (ContractError::Unauthorized {})
                } else if !contains_key(old(self).phases@, phase_id) {
                    e == (ContractError::InvalidPhaseId {})
                } else {
                    e == (ContractError::InvalidPhaseTime {})
                }
            },
    {
        if self.is_launchpad_started(now) {
            return Err(ContractError::LaunchpadStarted {});
        }
        if *sender != self.config.admin {
            return Err(ContractError::Unauthorized {});
        }
        let c = match self.phases.get(&phase_id) {
            Some(c) => c.duplicate(),
            None => {
                return Err(ContractError::InvalidPhaseId {});
            },
        };
        if !self.verify_phase_time(
            now,
            c.previous_phase_id,
            c.next_phase_id,
            phase_data.start_time,
            phase_data.end_time,
        ) {
            return Err(ContractError::InvalidPhaseTime {});
        }
        self.phases.save(
            phase_id,
            PhaseConfig {
                previous_phase_id: c.previous_phase_id,
                next_phase_id: c.next_phase_id,
                start_time: phase_data.start_time,
                end_time: phase_data.end_time,
                max_supply: phase_data.max_supply,
                total_supply: c.total_supply,
                max_nfts_per_address: phase_data.max_nfts_per_address,
                price: phase_data.price,
                is_public: phase_data.is_public,
            },
        );
        Ok(())
    }

    /// Removes a phase and re-links its neighbours in the same call.
    /// The sentinel can never be removed; removing the tail also moves
    /// the aggregate's tail pointer back to the predecessor.  Admin
    /// only, before the launchpad starts.
    pub fn remove_mint_phase(&mut self, now: u64, sender: &String, phase_id: u64) -> (r: Result<
        (),
        ContractError,
    >)
        requires
            old(self).wf(),
        ensures
            final(self).wf(),
            final(self).config == old(self).config,
            final(self).whitelist@ == old(self).whitelist@,
            final(self).remaining_token_ids@ == old(self).remaining_token_ids@,
            final(self).random_seed == old(self).random_seed,
            final(self).info.last_issued_id == old(self).info.last_issued_id,
            r is Ok <==> {
                &&& !old(self).spec_is_started(now)
                &&& sender@ == old(self).config.admin@
                &&& phase_id != 0
                &&& lookup(old(self).phases@, phase_id) matches Some(c)
                    && (c.previous_phase_id matches Some(p)
                    && (old(self).info.last_phase_id == phase_id || (c.next_phase_id matches
                        Some(n)
                    && contains_key(old(self).phases@, n)))
                    && contains_key(old(self).phases@, p))
            },
            r is Ok ==> {
                let s0 = old(self).phases@;
                let s1 = final(self).phases@;
                let c = lookup(s0, phase_id)->0;
                let p = c.previous_phase_id->0;
                &&& !contains_key(s1, phase_id)
                &&& if old(self).info.last_phase_id == phase_id {
                    let pc = lookup(s0, p)->0;
                    &&& final(self).info == (LaunchpadInfo {
                        last_phase_id: p,
                        ..old(self).info
                    })
                    &&& (p != phase_id ==> lookup(s1, p) == Some(
                        PhaseConfig { next_phase_id: None, ..pc },
                    ))
                    &&& forall|k2: u64|
                        k2 != phase_id && k2 != p ==> lookup(s1, k2) == lookup(s0, k2)
                } else {
                    let n = c.next_phase_id->0;
                    let pc = lookup(s0, p)->0;
                    &&& final(self).info == old(self).info
                    &&& (p != n && p != phase_id ==> lookup(s1, p) == Some(
                        PhaseConfig { next_phase_id: Some(n), ..pc },
                    ))
                    &&& (n != phase_id ==> (lookup(s1, n) matches Some(nc2)
                        && nc2.previous_phase_id == Some(p)))
                    &&& forall|k2: u64|
                        k2 != phase_id && k2 != p && k2 != n ==> lookup(s1, k2) == lookup(
                            s0,
                            k2,
                        )
                }
            },
            r is Err ==> final(self).phases@ == old(self).phases@ && final(self).info == old(
                self,
            ).info,
            r matches Err(e) ==> {
                if old(self).spec_is_started(now) {
                    e == (ContractError::LaunchpadStarted {})
                } else if sender@ != old(self).config.admin@ {
                    e == (ContractError::Unauthorized {})
                } else {
                    e == (ContractError::InvalidPhaseId {})
                }
            },
    {
        if self.is_launchpad_started(now) {
            return Err(ContractError::LaunchpadStarted {});
        }
        if *sender != self.config.admin {
            return Err(ContractError::Unauthorized {});
        }
        if phase_id == 0 {
            return Err(ContractError::InvalidPhaseId {});
        }
        let c = match self.phases.get(&phase_id) {
            Some(c) => c.duplicate(),
            None => {
                return Err(ContractError::InvalidPhaseId {});
            },
        };
        let p = match c.previous_phase_id {
            Some(p) => p,
            None => {
                return Err(ContractError::InvalidPhaseId {});
            },
        };
        if self.info.last_phase_id == phase_id {
            let pc = match self.phases.get(&p) {
                Some(pc) => pc.duplicate(),
                None => {
                    return Err(ContractError::InvalidPhaseId {});
                },
            };
            self.info.last_phase_id = p;
            self.phases.save(p, PhaseConfig { next_phase_id: None, ..pc });
            self.phases.remove(&phase_id);
            Ok(())
        } else {
            let n = match c.next_phase_id {
                Some(n) => n,
                None => {
                    return Err(ContractError::InvalidPhaseId {});
                },
            };
            if !self.phases.contains(&n) {
                return Err(ContractError::InvalidPhaseId {});
            }
            let pc = match self.phases.get(&p) {
                Some(pc) => pc.duplicate(),
                None => {
                    return Err(ContractError::InvalidPhaseId {});
                },
            };
            self.phases.save(p, PhaseConfig { next_phase_id: Some(n), ..pc });
            let nc = match self.phases.get(&n) {
                Some(nc) => nc.duplicate(),
                None => {
                    return Err(ContractError::InvalidPhaseId {});
                },
            };
            self.phases.save(n, PhaseConfig { previous_phase_id: Some(p), ..nc });
            self.phases.remove(&phase_id);
            Ok(())
        }
    }
}

/// Phase list integrity: inserting a phase `x` right after `y` and then
/// removing `y` leaves `x` linked where `y` was — `x`'s predecessor is
/// `y`'s old predecessor `p`, and `p`'s successor is `x`.  The
/// hypotheses are exactly what the add and remove contracts state of
/// the two store snapshots.
pub proof fn lemma_phase_list_integrity(
    s0: Seq<(u64, PhaseConfig)>,
    s1: Seq<(u64, PhaseConfig)>,
    s2: Seq<(u64, PhaseConfig)>,
    x: u64,
    y: u64,
    p: u64,
)
    requires
        // before the insertion: y has predecessor p, and x is fresh
        lookup(s0, y) matches Some(yc0) && yc0.previous_phase_id == Some(p),
        !contains_key(s0, x),
        x != y && x != p && y != p,
        // what inserting x after y guarantees of s1: x sits between y
        // and y's old successor, and nodes other than x, y and that
        // successor are untouched
        lookup(s1, x) matches Some(xc1) && xc1.previous_phase_id == Some(y),
        lookup(s1, y) matches Some(yc1) && yc1.next_phase_id == Some(x)
            && yc1.previous_phase_id == lookup(s0, y)->0.previous_phase_id,
        forall|k2: u64|
            k2 != x && k2 != y && (lookup(s0, y)->0.next_phase_id matches Some(n) ==> k2 != n)
                ==> lookup(s1, k2) == lookup(s0, k2),
        // what removing y guarantees of s2: y's neighbours in s1 — p
        // and x — are re-linked to each other
        !contains_key(s2, y),
        lookup(s1, p) is Some,
        lookup(s2, p) == (Some(
            PhaseConfig { next_phase_id: Some(x), ..lookup(s1, p)->0 },
        )),
        lookup(s2, x) matches Some(xc2) && xc2.previous_phase_id == Some(p),
        forall|k2: u64| k2 != y && k2 != p && k2 != x ==> lookup(s2, k2) == lookup(s1, k2),
    ensures
        lookup(s2, x) matches Some(xc) && xc.previous_phase_id == lookup(
            s0,
            y,
        )->0.previous_phase_id,
        lookup(s2, p) matches Some(pc) && pc.next_phase_id == Some(x),
{
}

} // verus!
