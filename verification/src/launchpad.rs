//! The phased mint launchpad: an aggregate of collection info, an
//! ordered list of time-windowed mint phases, a per-phase whitelist,
//! and a seeded random token-id allocator.

use vstd::prelude::*;

use crate::asset::Coin;
use crate::store::{contains_key, lookup, KeyedStore};

verus! {

/// Errors of the launchpad contract.
#[derive(Clone, Debug, PartialEq, Eq)]
pub enum ContractError {
    NotFound {},
    Unauthorized {},
    /// The first real phase has begun (or the launchpad is active), so
    /// phases and whitelists may no longer change.
    LaunchpadStarted {},
    InvalidPhaseTime {},
    InvalidPhaseId {},
    InvalidLaunchpadFee {},
    TooManyNfts {},
    LaunchpadIsActivated {},
    LaunchpadIsDeactivated {},
    PhaseIsInactivated {},
    MaxSupplyReached {},
    UserMintedTooMuchNfts {},
    NotEnoughFunds {},
    LastPhaseNotFinished {},
}

/// What a phase is configured with when added or updated.
#[derive(Clone, Debug, PartialEq, Eq)]
pub struct PhaseData {
    /// Block times, in nanoseconds.
    pub start_time: u64,
    pub end_time: u64,
    pub max_supply: Option<u64>,
    pub max_nfts_per_address: u64,
    pub price: Coin,
    pub is_public: bool,
}

impl PhaseData {
    /// A field-by-field copy whose equality with the original is known.
    pub fn duplicate(&self) -> (r: Self)
        ensures
            r == *self,
    {
        PhaseData {
            start_time: self.start_time,
            end_time: self.end_time,
            max_supply: self.max_supply,
            max_nfts_per_address: self.max_nfts_per_address,
            price: self.price.duplicate(),
            is_public: self.is_public,
        }
    }
}

/// One node of the phase list: the phase's own window and counters plus
/// the links to its neighbours.
#[derive(Clone, Debug, PartialEq, Eq)]
pub struct PhaseConfig {
    pub previous_phase_id: Option<u64>,
    pub next_phase_id: Option<u64>,
    pub start_time: u64,
    pub end_time: u64,
    pub max_supply: Option<u64>,
    pub total_supply: u64,
    pub max_nfts_per_address: u64,
    pub price: Coin,
    pub is_public: bool,
}

impl PhaseConfig {
    /// A field-by-field copy whose equality with the original is known.
    pub fn duplicate(&self) -> (r: Self)
        ensures
            r == *self,
    {
        PhaseConfig {
            previous_phase_id: self.previous_phase_id,
            next_phase_id: self.next_phase_id,
            start_time: self.start_time,
            end_time: self.end_time,
            max_supply: self.max_supply,
            total_supply: self.total_supply,
            max_nfts_per_address: self.max_nfts_per_address,
            price: self.price.duplicate(),
            is_public: self.is_public,
        }
    }
}

/// One phase as a query answer.
#[derive(Clone, Debug, PartialEq, Eq)]
pub struct PhaseConfigResponse {
    pub phase_id: u64,
    pub start_time: u64,
    pub end_time: u64,
    pub max_supply: Option<u64>,
    pub total_supply: u64,
    pub max_nfts_per_address: u64,
    pub price: Coin,
    pub is_public: bool,
}

/// How many tokens a user may still mint in a phase.
#[derive(Clone, Copy, Debug, PartialEq, Eq, Structural)]
pub struct MintableResponse {
    pub phase_id: u64,
    pub remaining_nfts: u64,
}

/// The collection parameters the launchpad is instantiated with.
#[derive(Clone, Debug, PartialEq, Eq)]
pub struct ColectionInfo {
    pub name: String,
    pub symbol: String,
    pub creator: String,
    pub max_supply: u64,
    pub uri_prefix: String,
    pub uri_suffix: String,
    pub royalty_percentage: Option<u64>,
    pub royalty_payment_address: Option<String>,
}

/// Contract-level configuration of the launchpad.
#[derive(Clone, Debug, PartialEq, Eq)]
pub struct Config {
    pub admin: String,
    pub launchpad_collector: String,
}

/// The aggregate root of the launchpad.
#[derive(Clone, Debug, PartialEq, Eq)]
pub struct LaunchpadInfo {
    pub creator: String,
    pub collection_address: String,
    /// The sentinel phase id anchoring the head of the phase list.
    pub start_phase_id: u64,
    pub last_phase_id: u64,
    /// Monotonically increasing phase-id issuance counter; ids are
    /// never reused.
    pub last_issued_id: u64,
    pub total_supply: u64,
    pub max_supply: u64,
    pub uri_prefix: String,
    pub uri_suffix: String,
    pub is_active: bool,
    /// Percentage of the proceeds kept by the launchpad; below 100.
    pub launchpad_fee: u64,
}

/// The launchpad with its explicit stores: the phase-list arena, the
/// per-phase whitelist counters, and the random allocator's state.
pub struct Launchpad {
    pub config: Config,
    pub info: LaunchpadInfo,
    pub phases: KeyedStore<u64, PhaseConfig>,
    /// `(phase id, address)` to the number of tokens minted there.
    pub whitelist: KeyedStore<(u64, String), u64>,
    /// The persisted randomness seed, re-drawn after every draw.
    pub random_seed: [u8; 32],
    /// The swap-to-end allocation table: array slot to token id, only
    /// materialized where it differs from "slot + 1".
    pub remaining_token_ids: KeyedStore<u64, u64>,
}

impl Launchpad {
    pub open spec fn wf(&self) -> bool {
        &&& self.phases.wf()
        &&& self.whitelist.wf()
        &&& self.remaining_token_ids.wf()
        &&& self.info.launchpad_fee < 100
        &&& forall|i: int|
            0 <= i < self.phases@.len() ==> (#[trigger] self.phases@[i]).0
                <= self.info.last_issued_id
    }

    /// Instantiates the launchpad: empty counters, an inactive state,
    /// and the immutable sentinel phase with id 0 and a zero-width
    /// window anchoring the phase list.  A fee of 100 or more — taking
    /// all of the creator's proceeds — is rejected.
    pub fn new(
        admin: String,
        launchpad_collector: String,
        collection_info: ColectionInfo,
        launchpad_fee: u64,
        random_seed: [u8; 32],
    ) -> (r: Result<Launchpad, ContractError>)
        ensures
            r is Ok <==> launchpad_fee < 100,
            r matches Ok(lp) ==> {
                &&& lp.wf()
                &&& lp.config.admin == admin
                &&& lp.config.launchpad_collector == launchpad_collector
                &&& lp.info.creator == collection_info.creator
                &&& lp.info.collection_address@.len() == 0
                &&& lp.info.start_phase_id == 0 && lp.info.last_phase_id == 0
                    && lp.info.last_issued_id == 0
                &&& lp.info.total_supply == 0
                &&& lp.info.max_supply == collection_info.max_supply
                &&& lp.info.uri_prefix == collection_info.uri_prefix
                &&& lp.info.uri_suffix == collection_info.uri_suffix
                &&& !lp.info.is_active
                &&& lp.info.launchpad_fee == launchpad_fee
                &&& lp.random_seed == random_seed
                &&& lookup(lp.phases@, 0) matches Some(sentinel)
                    && sentinel.previous_phase_id is None && sentinel.next_phase_id is None
                    && sentinel.start_time == 0 && sentinel.end_time == 0
                &&& lp.phases@.len() == 1
                &&& lp.whitelist@.len() == 0
                &&& lp.remaining_token_ids@.len() == 0
            },
            r matches Err(e) ==> e == (ContractError::InvalidLaunchpadFee {}),
    {
        if launchpad_fee >= 100 {
            return Err(ContractError::InvalidLaunchpadFee {});
        }
        let mut phases: KeyedStore<u64, PhaseConfig> = KeyedStore::new();
        phases.save(
            0,
            PhaseConfig {
                previous_phase_id: None,
                next_phase_id: None,
                start_time: 0,
                end_time: 0,
                max_supply: Some(0),
                total_supply: 0,
                max_nfts_per_address: 0,
                price: Coin { denom: String::new(), amount: 0 },
                is_public: false,
            },
        );
        Ok(
            Launchpad {
                config: Config { admin, launchpad_collector },
                info: LaunchpadInfo {
                    creator: collection_info.creator,
                    collection_address: String::new(),
                    start_phase_id: 0,
                    last_phase_id: 0,
                    last_issued_id: 0,
                    total_supply: 0,
                    max_supply: collection_info.max_supply,
                    uri_prefix: collection_info.uri_prefix,
                    uri_suffix: collection_info.uri_suffix,
                    is_active: false,
                    launchpad_fee,
                },
                phases,
                whitelist: KeyedStore::new(),
                random_seed,
                remaining_token_ids: KeyedStore::new(),
            },
        )
    }

    /// Records the collection contract's address once the host's reply
    /// callback delivers it.
    pub fn set_collection_address(&mut self, collection_address: String)
        requires
            old(self).wf(),
        ensures
            final(self).wf(),
            *final(self) == (Launchpad {
                info: LaunchpadInfo {
                    collection_address,
                    ..old(self).info
                },
                ..*old(self)
            }),
    {
        self.info.collection_address = collection_address;
    }

    /// Whether the launchpad has started: the first real phase's window
    /// has been reached, or the launchpad has been activated.  While
    /// started, phases and whitelists are frozen.
    pub open spec fn spec_is_started(&self, now: u64) -> bool {
        let first = match lookup(self.phases@, self.info.start_phase_id) {
            Some(sentinel) => sentinel.next_phase_id,
            None => None,
        };
        match first {
            Some(first_id) => match lookup(self.phases@, first_id) {
                Some(c) => now >= c.start_time || self.info.is_active,
                None => self.info.is_active,
            },
            None => self.info.is_active,
        }
    }

    pub fn is_launchpad_started(&self, now: u64) -> (r: bool)
        requires
            self.wf(),
        ensures
            r == self.spec_is_started(now),
    {
        let first = match self.phases.get(&self.info.start_phase_id) {
            Some(sentinel) => sentinel.next_phase_id,
            None => None,
        };
        match first {
            Some(first_id) => match self.phases.get(&first_id) {
                Some(c) => now >= c.start_time || self.info.is_active,
                None => self.info.is_active,
            },
            None => self.info.is_active,
        }
    }

    /// Activates the launchpad.  Admin only; already active is an
    /// error.
    pub fn active_launchpad(&mut self, sender: &String) -> (r: Result<(), ContractError>)
        requires
            old(self).wf(),
        ensures
            final(self).wf(),
            r is Ok <==> (sender@ == old(self).config.admin@ && !old(self).info.is_active),
            r is Ok ==> *final(self) == (Launchpad {
                info: LaunchpadInfo { is_active: true, ..old(self).info },
                ..*old(self)
            }),
            r is Err ==> *final(self) == *old(self),
            r matches Err(e) ==> {
                if sender@ != old(self).config.admin@ {
                    e == (ContractError::Unauthorized {})
                } else {
                    e == (ContractError::LaunchpadIsActivated {})
                }
            },
    {
        if *sender != self.config.admin {
            return Err(ContractError::Unauthorized {});
        }
        if self.info.is_active {
            return Err(ContractError::LaunchpadIsActivated {});
        }
        self.info.is_active = true;
        Ok(())
    }

    /// Deactivates the launchpad.  Admin only; already inactive is an
    /// error.
    pub fn deactive_launchpad(&mut self, sender: &String) -> (r: Result<(), ContractError>)
        requires
            old(self).wf(),
        ensures
            final(self).wf(),
            r is Ok <==> (sender@ == old(self).config.admin@ && old(self).info.is_active),
            r is Ok ==> *final(self) == (Launchpad {
                info: LaunchpadInfo { is_active: false, ..old(self).info },
                ..*old(self)
            }),
            r is Err ==> *final(self) == *old(self),
            r matches Err(e) ==> {
                if sender@ != old(self).config.admin@ {
                    e == (ContractError::Unauthorized {})
                } else {
                    e == (ContractError::LaunchpadIsDeactivated {})
                }
            },
    {
        if *sender != self.config.admin {
            return Err(ContractError::Unauthorized {});
        }
        if !self.info.is_active {
            return Err(ContractError::LaunchpadIsDeactivated {});
        }
        self.info.is_active = false;
        Ok(())
    }

    /// Adds addresses to a phase's whitelist with a zero minted count;
    /// addresses already present keep their count.  Admin only, and
    /// only before the launchpad starts.
    pub fn add_whitelist(
        &mut self,
        now: u64,
        sender: &String,
        phase_id: u64,
        whitelists: Vec<String>,
    ) -> (r: Result<(), ContractError>)
        requires
            old(self).wf(),
        ensures
            final(self).wf(),
            final(self).config == old(self).config,
            final(self).info == old(self).info,
            final(self).phases@ == old(self).phases@,
            final(self).remaining_token_ids@ == old(self).remaining_token_ids@,
            r is Ok <==> (!old(self).spec_is_started(now) && sender@ == old(
                self,
            ).config.admin@),
            r is Ok ==> {
                &&& forall|i: int|
                    0 <= i < whitelists@.len() ==> lookup(
                        final(self).whitelist@,
                        (phase_id, (#[trigger] whitelists@[i])@),
                    ) == (match lookup(old(self).whitelist@, (phase_id, whitelists@[i]@)) {
                        Some(n) => Some(n),
                        None => Some(0u64),
                    })
                &&& forall|k2: (u64, Seq<char>)|
                    !(k2.0 == phase_id && (exists|i: int|
                        0 <= i < whitelists@.len() && (#[trigger] whitelists@[i])@ == k2.1))
                        ==> lookup(final(self).whitelist@, k2) == lookup(
                        old(self).whitelist@,
                        k2,
                    )
            },
            r is Err ==> final(self).whitelist@ == old(self).whitelist@,
            r matches Err(e) ==> {
                if old(self).spec_is_started(now) {
                    e == (ContractError::LaunchpadStarted {})
                } else {
                    e == (ContractError::Unauthorized {})
                }
            },
    {
        if self.is_launchpad_started(now) {
            return Err(ContractError::LaunchpadStarted {});
        }
        if *sender != self.config.admin {
            return Err(ContractError::Unauthorized {});
        }
        let n = whitelists.len();
        let mut i: usize = 0;
        while i < n
            invariant
                n == whitelists@.len(),
                i <= n,
                self.wf(),
                self.config == old(self).config,
                self.info == old(self).info,
                self.phases@ == old(self).phases@,
                self.remaining_token_ids@ == old(self).remaining_token_ids@,
                forall|j: int|
                    0 <= j < i ==> lookup(
                        self.whitelist@,
                        (phase_id, (#[trigger] whitelists@[j])@),
                    ) == (match lookup(old(self).whitelist@, (phase_id, whitelists@[j]@)) {
                        Some(cnt) => Some(cnt),
                        None => Some(0u64),
                    }),
                forall|k2: (u64, Seq<char>)|
                    !(k2.0 == phase_id && (exists|j: int|
                        0 <= j < i && (#[trigger] whitelists@[j])@ == k2.1)) ==> lookup(
                        self.whitelist@,
                        k2,
                    ) == lookup(old(self).whitelist@, k2),
            decreases n - i,
        {
            let key = (phase_id, whitelists[i].clone());
            if !self.whitelist.contains(&key) {
                self.whitelist.save(key, 0);
            }
            i = i + 1;
        }
        Ok(())
    }

    /// Removes addresses from a phase's whitelist, minted counts
    /// included.  Admin only, and only before the launchpad starts.
    pub fn remove_whitelist(
        &mut self,
        now: u64,
        sender: &String,
        phase_id: u64,
        addresses: Vec<String>,
    ) -> (r: Result<(), ContractError>)
        requires
            old(self).wf(),
        ensures
            final(self).wf(),
            final(self).config == old(self).config,
            final(self).info == old(self).info,
            final(self).phases@ == old(self).phases@,
            final(self).remaining_token_ids@ == old(self).remaining_token_ids@,
            r is Ok <==> (!old(self).spec_is_started(now) && sender@ == old(
                self,
            ).config.admin@),
            r is Ok ==> {
                &&& forall|i: int|
                    0 <= i < addresses@.len() ==> !contains_key(
                        final(self).whitelist@,
                        (phase_id, (#[trigger] addresses@[i])@),
                    )
                &&& forall|k2: (u64, Seq<char>)|
                    !(k2.0 == phase_id && (exists|i: int|
                        0 <= i < addresses@.len() && (#[trigger] addresses@[i])@ == k2.1))
                        ==> lookup(final(self).whitelist@, k2) == lookup(
                        old(self).whitelist@,
                        k2,
                    )
            },
            r is Err ==> final(self).whitelist@ == old(self).whitelist@,
            r matches Err(e) ==> {
                if old(self).spec_is_started(now) {
                    e == (ContractError::LaunchpadStarted {})
                } else {
                    e == (ContractError::Unauthorized {})
                }
            },
    {
        if self.is_launchpad_started(now) {
            return Err(ContractError::LaunchpadStarted {});
        }
        if *sender != self.config.admin {
            return Err(ContractError::Unauthorized {});
        }
        let n = addresses.len();
        let mut i: usize = 0;
        while i < n
            invariant
                n == addresses@.len(),
                i <= n,
                self.wf(),
                self.config == old(self).config,
                self.info == old(self).info,
                self.phases@ == old(self).phases@,
                self.remaining_token_ids@ == old(self).remaining_token_ids@,
                forall|j: int|
                    0 <= j < i ==> !contains_key(
                        self.whitelist@,
                        (phase_id, (#[trigger] addresses@[j])@),
                    ),
                forall|k2: (u64, Seq<char>)|
                    !(k2.0 == phase_id && (exists|j: int|
                        0 <= j < i && (#[trigger] addresses@[j])@ == k2.1)) ==> lookup(
                        self.whitelist@,
                        k2,
                    ) == lookup(old(self).whitelist@, k2),
            decreases n - i,
        {
            let key = (phase_id, addresses[i].clone());
            self.whitelist.remove(&key);
            i = i + 1;
        }
        Ok(())
    }

    pub fn query_launchpad_info(&self) -> (r: LaunchpadInfo)
        ensures
            r == self.info,
    {
        LaunchpadInfo {
            creator: self.info.creator.clone(),
            collection_address: self.info.collection_address.clone(),
            start_phase_id: self.info.start_phase_id,
            last_phase_id: self.info.last_phase_id,
            last_issued_id: self.info.last_issued_id,
            total_supply: self.info.total_supply,
            max_supply: self.info.max_supply,
            uri_prefix: self.info.uri_prefix.clone(),
            uri_suffix: self.info.uri_suffix.clone(),
            is_active: self.info.is_active,
            launchpad_fee: self.info.launchpad_fee,
        }
    }
}

} // verus!
