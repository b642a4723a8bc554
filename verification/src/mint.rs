//! Minting through the launchpad: supply caps, whitelist quotas, funds
//! checks, and the random token draws; plus the creator's withdrawal
//! and the phase-walking queries.

use vstd::prelude::*;

use crate::asset::Coin;
use crate::allocator::{spec_draw_position, spec_mint_tokens, spec_slot, spec_table_after_deal, sub_randomness_of};
use crate::auction::spec_funds_cover;
use crate::launchpad::{
    ContractError, Launchpad, LaunchpadInfo, MintableResponse, PhaseConfig,
    PhaseConfigResponse,
};
use crate::msgs::OutboundMsg;
use crate::store::{contains_key, lookup};
use crate::text::{dec_str, get_token_uri, u64_to_string};

verus! {

/// The ids of the phases reached by following `next` links from
/// `id` (exclusive) until `last`, a dead link, or fuel runs out.
pub open spec fn spec_phase_walk(
    s: Seq<(u64, PhaseConfig)>,
    id: u64,
    last: u64,
    fuel: nat,
) -> Seq<u64>
    decreases fuel,
{
    if id == last || fuel == 0 {
        Seq::empty()
    } else {
        match lookup(s, id) {
            Some(c) => match c.next_phase_id {
                Some(n) => match lookup(s, n) {
                    Some(_) => seq![n] + spec_phase_walk(s, n, last, (fuel - 1) as nat),
                    None => Seq::empty(),
                },
                None => Seq::empty(),
            },
            None => Seq::empty(),
        }
    }
}

/// The number of tokens the caller may request in one mint call.
pub const MAX_MINT_PER_CALL: u64 = 10;

impl Launchpad {
    /// Mints `amount` tokens (one by default, at most ten) in a phase:
    /// checks the phase window, the whitelist quota, both supply caps
    /// and the attached funds, then draws each token id at random and
    /// emits one mint instruction per token.  All counters move in the
    /// same call; on any error nothing moves at all.
    pub fn mint(
        &mut self,
        now: u64,
        sender: &String,
        funds: &Vec<Coin>,
        phase_id: u64,
        amount: Option<u64>,
    ) -> (r: Result<Vec<OutboundMsg>, ContractError>)
        requires
            old(self).wf(),
        ensures
            final(self).wf(),
            final(self).config == old(self).config,
            r is Ok <==> ({
                let a = match amount {
                    Some(x) => x as int,
                    None => 1,
                };
                &&& a <= MAX_MINT_PER_CALL
                &&& old(self).info.is_active
                &&& lookup(old(self).phases@, phase_id) matches Some(pc) && ({
                    let minted = lookup(old(self).whitelist@, (phase_id, sender@));
                    &&& (pc.is_public || minted is Some)
                    &&& pc.start_time <= now <= pc.end_time
                    &&& old(self).info.total_supply + a <= old(self).info.max_supply
                    &&& (pc.max_supply matches Some(ms) ==> pc.total_supply + a <= ms)
                    &&& pc.total_supply + a <= u64::MAX
                    &&& (match minted {
                        Some(m) => m as int,
                        None => 0,
                    }) + a <= pc.max_nfts_per_address
                    &&& spec_funds_cover(
                        funds@,
                        pc.price.denom@,
                        (pc.price.amount * a) as u128,
                    )
                    &&& pc.price.amount * a <= u128::MAX
                })
            }),
            r matches Ok(msgs) ==> ({
                let a = match amount {
                    Some(x) => x as int,
                    None => 1,
                };
                let pc = lookup(old(self).phases@, phase_id)->0;
                let minted0 = match lookup(old(self).whitelist@, (phase_id, sender@)) {
                    Some(m) => m as int,
                    None => 0,
                };
                &&& final(self).info == (LaunchpadInfo {
                    total_supply: (old(self).info.total_supply + a) as u64,
                    ..old(self).info
                })
                &&& lookup(final(self).phases@, phase_id) == Some(
                    PhaseConfig { total_supply: (pc.total_supply + a) as u64, ..pc },
                )
                &&& forall|k2: u64|
                    k2 != phase_id ==> lookup(final(self).phases@, k2) == lookup(
                        old(self).phases@,
                        k2,
                    )
                &&& lookup(final(self).whitelist@, (phase_id, sender@)) == Some(
                    (minted0 + a) as u64,
                )
                &&& forall|k2: (u64, Seq<char>)|
                    k2 != (phase_id, sender@) ==> lookup(final(self).whitelist@, k2) == lookup(
                        old(self).whitelist@,
                        k2,
                    )
                &&& msgs@.len() == a
                &&& forall|i: int|
                    0 <= i < msgs@.len() ==> ((#[trigger] msgs@[i])
                        matches OutboundMsg::MintNft { contract_address, owner, .. }
                        && contract_address@ == old(self).info.collection_address@ && owner@
                        == sender@)
                &&& ({
                    let key = sender@ + dec_str(now as nat);
                    let tokens = spec_mint_tokens(
                        old(self).random_seed@,
                        old(self).remaining_token_ids@,
                        key,
                        (old(self).info.max_supply - old(self).info.total_supply) as u64,
                        a as nat,
                    );
                    forall|i: int|
                        0 <= i < msgs@.len() ==> ((#[trigger] msgs@[i])
                            matches OutboundMsg::MintNft { token_id, token_uri, .. }
                            && token_id@ == dec_str(tokens[i] as nat) && token_uri@
                            == old(self).info.uri_prefix@ + dec_str(tokens[i] as nat)
                            + old(self).info.uri_suffix@)
                })
            }),
            r is Err ==> {
                &&& final(self).info == old(self).info
                &&& final(self).phases@ == old(self).phases@
                &&& final(self).whitelist@ == old(self).whitelist@
                &&& final(self).random_seed == old(self).random_seed
                &&& final(self).remaining_token_ids@ == old(self).remaining_token_ids@
            },
            r matches Err(e) ==> ({
                let a = match amount {
                    Some(x) => x as int,
                    None => 1,
                };
                if a > MAX_MINT_PER_CALL {
                    e == (ContractError::TooManyNfts {})
                } else if !old(self).info.is_active {
                    e == (ContractError::LaunchpadIsDeactivated {})
                } else if !contains_key(old(self).phases@, phase_id) {
                    e == (ContractError::InvalidPhaseId {})
                } else {
                    let pc = lookup(old(self).phases@, phase_id)->0;
                    let minted = lookup(old(self).whitelist@, (phase_id, sender@));
                    if !(pc.is_public || minted is Some) {
                        e == (ContractError::Unauthorized {})
                    } else if !(pc.start_time <= now <= pc.end_time) {
                        e == (ContractError::PhaseIsInactivated {})
                    } else if old(self).info.total_supply + a > old(self).info.max_supply || (
                    pc.max_supply matches Some(ms) && pc.total_supply + a > ms) || pc.total_supply
                        + a > u64::MAX {
                        e == (ContractError::MaxSupplyReached {})
                    } else if (match minted {
                        Some(m) => m as int,
                        None => 0,
                    }) + a > pc.max_nfts_per_address {
                        e == (ContractError::UserMintedTooMuchNfts {})
                    } else {
                        e == (ContractError::NotEnoughFunds {})
                    }
                }
            }),
    {
        let amount_nfts: u64 = match amount {
            Some(x) => x,
            None => 1,
        };
        if amount_nfts > MAX_MINT_PER_CALL {
            return Err(ContractError::TooManyNfts {});
        }
        if !self.info.is_active {
            return Err(ContractError::LaunchpadIsDeactivated {});
        }
        let phase = match self.phases.get(&phase_id) {
            Some(pc) => pc.duplicate(),
            None => {
                return Err(ContractError::InvalidPhaseId {});
            },
        };
        let wl_key = (phase_id, sender.clone());
        let minted: Option<u64> = match self.whitelist.get(&wl_key) {
            Some(m) => Some(*m),
            None => None,
        };
        if !phase.is_public && minted.is_none() {
            return Err(ContractError::Unauthorized {});
        }
        if now < phase.start_time || now > phase.end_time {
            return Err(ContractError::PhaseIsInactivated {});
        }
        let supply_ok = match self.info.total_supply.checked_add(amount_nfts) {
            Some(total) => total <= self.info.max_supply,
            None => false,
        };
        let new_phase_total = match phase.total_supply.checked_add(amount_nfts) {
            Some(total) => total,
            None => {
                return Err(ContractError::MaxSupplyReached {});
            },
        };
        let phase_supply_ok = match phase.max_supply {
            Some(ms) => new_phase_total <= ms,
            None => true,
        };
        if !supply_ok || !phase_supply_ok {
            return Err(ContractError::MaxSupplyReached {});
        }
        let minted0: u64 = match minted {
            Some(m) => m,
            None => 0,
        };
        let quota_ok = match minted0.checked_add(amount_nfts) {
            Some(total) => total <= phase.max_nfts_per_address,
            None => false,
        };
        if !quota_ok {
            return Err(ContractError::UserMintedTooMuchNfts {});
        }
        let funds_ok = match phase.price.amount.checked_mul(amount_nfts as u128) {
            Some(total_price) => {
                crate::mint::funds_cover_amount(funds, &phase.price.denom, total_price)
            },
            None => false,
        };
        if !funds_ok {
            return Err(ContractError::NotEnoughFunds {});
        }
        self.phases.save(phase_id, PhaseConfig { total_supply: new_phase_total, ..phase });
        self.whitelist.save(wl_key, minted0 + amount_nfts);
        let ghost phases1 = self.phases@;
        let ghost wl1 = self.whitelist@;
        let ghost total0 = self.info.total_supply;
        let ghost key = sender@ + dec_str(now as nat);
        let ghost rem0 = (old(self).info.max_supply - total0) as u64;
        let ghost tokens = spec_mint_tokens(
            self.random_seed@,
            self.remaining_token_ids@,
            key,
            rem0,
            amount_nfts as nat,
        );
        proof {
            crate::allocator::lemma_mint_tokens_len(
                self.random_seed@,
                self.remaining_token_ids@,
                key,
                rem0,
                amount_nfts as nat,
            );
        }
        let mut messages: Vec<OutboundMsg> = Vec::new();
        let mut i: u64 = 0;
        while i < amount_nfts
            invariant
                i <= amount_nfts,
                self.wf(),
                total0 == old(self).info.total_supply,
                total0 + amount_nfts <= old(self).info.max_supply,
                rem0 == old(self).info.max_supply - total0,
                self.config == old(self).config,
                self.info == (LaunchpadInfo {
                    total_supply: (total0 + i) as u64,
                    ..old(self).info
                }),
                self.phases@ == phases1,
                self.whitelist@ == wl1,
                messages@.len() == i,
                forall|j: int|
                    0 <= j < messages@.len() ==> ((#[trigger] messages@[j])
                        matches OutboundMsg::MintNft { contract_address, owner, .. }
                        && contract_address@ == old(self).info.collection_address@ && owner@
                        == sender@),
                forall|j: int|
                    0 <= j < messages@.len() ==> ((#[trigger] messages@[j])
                        matches OutboundMsg::MintNft { token_id, token_uri, .. }
                        && token_id@ == dec_str(tokens[j] as nat) && token_uri@
                        == old(self).info.uri_prefix@ + dec_str(tokens[j] as nat)
                        + old(self).info.uri_suffix@),
                key == sender@ + dec_str(now as nat),
                tokens == spec_mint_tokens(
                    old(self).random_seed@,
                    old(self).remaining_token_ids@,
                    key,
                    rem0,
                    amount_nfts as nat,
                ),
                tokens.len() == amount_nfts,
                spec_mint_tokens(
                    self.random_seed@,
                    self.remaining_token_ids@,
                    key,
                    (rem0 - i) as u64,
                    (amount_nfts - i) as nat,
                ) == tokens.skip(i as int),
            decreases amount_nfts - i,
        {
            let remaining = self.info.max_supply - self.info.total_supply;
            proof {
                assert(remaining == rem0 - i);
            }
            let ghost seed_before = self.random_seed@;
            let ghost table_before = self.remaining_token_ids@;
            let token = self.generate_random_token_id(now, sender, remaining);
            proof {
                assert((rem0 - i) as u64 == remaining);
                let pos = spec_draw_position(seed_before, key, remaining);
                let rest = spec_mint_tokens(
                    sub_randomness_of(seed_before, key, 0),
                    spec_table_after_deal(table_before, pos, (remaining - 1) as u64),
                    key,
                    (remaining - 1) as u64,
                    (amount_nfts - i - 1) as nat,
                );
                assert(spec_mint_tokens(
                    seed_before,
                    table_before,
                    key,
                    remaining,
                    (amount_nfts - i) as nat,
                ) == seq![spec_slot(table_before, pos)] + rest);
                assert(tokens.skip(i as int) == seq![spec_slot(table_before, pos)] + rest);
                assert(token == spec_slot(table_before, pos));
                assert(token == tokens.skip(i as int)[0]);
                assert(token == tokens[i as int]);
                assert((seq![spec_slot(table_before, pos)] + rest).skip(1) =~= rest);
                assert(tokens.skip(i as int).skip(1) =~= tokens.skip(i as int + 1));
                assert(rest == tokens.skip(i as int + 1));
                assert((rem0 - (i + 1)) as u64 == (remaining - 1) as u64);
                assert(self.random_seed@ == sub_randomness_of(seed_before, key, 0));
                assert(self.remaining_token_ids@ == spec_table_after_deal(
                    table_before,
                    pos,
                    (remaining - 1) as u64,
                ));
            }
            let token_str = u64_to_string(token);
            let token_uri = get_token_uri(
                self.info.uri_prefix.as_str(),
                token_str.as_str(),
                self.info.uri_suffix.as_str(),
            );
            messages.push(
                OutboundMsg::MintNft {
                    contract_address: self.info.collection_address.clone(),
                    owner: sender.clone(),
                    token_id: token_str,
                    token_uri,
                },
            );
            self.info.total_supply = self.info.total_supply + 1;
            i = i + 1;
        }
        Ok(messages)
    }
}

impl Launchpad {
    /// Pays the proceeds out once the last phase has ended: the creator
    /// receives the balance minus the launchpad's fee percentage
    /// (rounded toward zero), and the remainder goes to the fee
    /// collector when the fee is nonzero.  Creator only.
    pub fn withdraw(&self, now: u64, sender: &String, denom: String, contract_balance: u128) -> (r:
        Result<Vec<OutboundMsg>, ContractError>)
        requires
            self.wf(),
        ensures
            r is Ok <==> {
                &&& sender@ == self.info.creator@
                &&& lookup(self.phases@, self.info.last_phase_id) matches Some(lc)
                    && lc.end_time <= now
            },
            r matches Ok(msgs) ==> ({
                let creator_amount = (contract_balance * (100 - self.info.launchpad_fee))
                    / 100;
                let fee_amount = contract_balance - creator_amount;
                &&& msgs@.len() == (if self.info.launchpad_fee == 0 {
                    1int
                } else {
                    2int
                })
                &&& msgs@[0] matches OutboundMsg::BankSend { to_address, denom: d, amount }
                    && to_address@ == self.info.creator@ && d@ == denom@ && amount
                    == creator_amount
                &&& (self.info.launchpad_fee != 0 ==> (msgs@[1]
                    matches OutboundMsg::BankSend { to_address, denom: d, amount }
                    && to_address@ == self.config.launchpad_collector@ && d@ == denom@
                    && amount == fee_amount))
            }),
            r matches Err(e) ==> {
                if sender@ != self.info.creator@ {
                    e == (ContractError::Unauthorized {})
                } else if !contains_key(self.phases@, self.info.last_phase_id) {
                    e == (ContractError::NotFound {})
                } else {
                    e == (ContractError::LastPhaseNotFinished {})
                }
            },
    {
        if *sender != self.info.creator {
            return Err(ContractError::Unauthorized {});
        }
        let last_phase = match self.phases.get(&self.info.last_phase_id) {
            Some(lc) => lc,
            None => {
                return Err(ContractError::NotFound {});
            },
        };
        if last_phase.end_time > now {
            return Err(ContractError::LastPhaseNotFinished {});
        }
        let creator_amount = crate::arith::percent_of(
            contract_balance,
            100 - self.info.launchpad_fee,
        );
        let fee_amount = contract_balance - creator_amount;
        let mut msgs: Vec<OutboundMsg> = Vec::new();
        msgs.push(
            OutboundMsg::BankSend {
                to_address: self.info.creator.clone(),
                denom: denom.clone(),
                amount: creator_amount,
            },
        );
        if self.info.launchpad_fee != 0 {
            msgs.push(
                OutboundMsg::BankSend {
                    to_address: self.config.launchpad_collector.clone(),
                    denom,
                    amount: fee_amount,
                },
            );
        }
        Ok(msgs)
    }

    /// The phases in list order, walked from the sentinel: one answer
    /// per phase reached before `last_phase_id` closes the walk.
    pub fn query_all_phase_configs(&self) -> (r: Vec<PhaseConfigResponse>)
        requires
            self.wf(),
        ensures
            ({
                let walk = spec_phase_walk(
                    self.phases@,
                    0,
                    self.info.last_phase_id,
                    self.phases@.len(),
                );
                &&& r@.len() == walk.len()
                &&& forall|i: int|
                    0 <= i < walk.len() ==> ((#[trigger] r@[i]).phase_id == walk[i] && (lookup(
                        self.phases@,
                        walk[i],
                    ) matches Some(c) && r@[i].start_time == c.start_time && r@[i].end_time
                        == c.end_time && r@[i].max_supply == c.max_supply && r@[i].total_supply
                        == c.total_supply && r@[i].max_nfts_per_address
                        == c.max_nfts_per_address && r@[i].price == c.price && r@[i].is_public
                        == c.is_public))
            }),
    {
        let fuel = self.phases.len();
        proof {
            assert(fuel as nat == self.phases@.len());
        }
        self.collect_phases(0, fuel)
    }

    /// Walks `next` links from `cur`, answering one entry per phase
    /// reached, spending one unit of fuel per step.
    fn collect_phases(&self, cur: u64, fuel: usize) -> (r: Vec<PhaseConfigResponse>)
        requires
            self.wf(),
        ensures
            ({
                let walk = spec_phase_walk(
                    self.phases@,
                    cur,
                    self.info.last_phase_id,
                    fuel as nat,
                );
                &&& r@.len() == walk.len()
                &&& forall|i: int|
                    0 <= i < walk.len() ==> ((#[trigger] r@[i]).phase_id == walk[i] && (lookup(
                        self.phases@,
                        walk[i],
                    ) matches Some(c) && r@[i].start_time == c.start_time && r@[i].end_time
                        == c.end_time && r@[i].max_supply == c.max_supply && r@[i].total_supply
                        == c.total_supply && r@[i].max_nfts_per_address
                        == c.max_nfts_per_address && r@[i].price == c.price && r@[i].is_public
                        == c.is_public))
            }),
        decreases fuel,
    {
        if cur == self.info.last_phase_id || fuel == 0 {
            return Vec::new();
        }
        let c = match self.phases.get(&cur) {
            Some(c) => c,
            None => {
                return Vec::new();
            },
        };
        let n = match c.next_phase_id {
            Some(n) => n,
            None => {
                return Vec::new();
            },
        };
        let nc = match self.phases.get(&n) {
            Some(nc) => nc.duplicate(),
            None => {
                return Vec::new();
            },
        };
        let mut out: Vec<PhaseConfigResponse> = Vec::new();
        out.push(
            PhaseConfigResponse {
                phase_id: n,
                start_time: nc.start_time,
                end_time: nc.end_time,
                max_supply: nc.max_supply,
                total_supply: nc.total_supply,
                max_nfts_per_address: nc.max_nfts_per_address,
                price: nc.price,
                is_public: nc.is_public,
            },
        );
        let ghost resp0 = out@[0];
        let mut rest = self.collect_phases(n, fuel - 1);
        let ghost rest0 = rest@;
        out.append(&mut rest);
        proof {
            let walk = spec_phase_walk(
                self.phases@,
                cur,
                self.info.last_phase_id,
                fuel as nat,
            );
            let walk_rest = spec_phase_walk(
                self.phases@,
                n,
                self.info.last_phase_id,
                (fuel - 1) as nat,
            );
            assert(walk == seq![n] + walk_rest);
            assert(out@ =~= seq![resp0] + rest0);
            assert forall|i: int| 0 <= i < walk.len() implies ((#[trigger] out@[i]).phase_id
                == walk[i]) by {
                if i == 0 {
                    assert(walk[0] == n && out@[0] == resp0);
                } else {
                    assert(walk[i] == walk_rest[i - 1] && out@[i] == rest0[i - 1]);
                }
            }
            assert forall|i: int| 0 < i < walk.len() implies out@[i] == rest0[i - 1]
                && walk[i] == walk_rest[i - 1] by {}
        }
        out
    }

    /// How many tokens `user` may still mint in each phase, walked in
    /// list order: the phase quota minus what the whitelist records,
    /// with an absent record counting as zero in a public phase and as
    /// the full quota in a private one.
    pub fn query_mintable(&self, user: &String) -> (r: Vec<MintableResponse>)
        requires
            self.wf(),
        ensures
            ({
                let walk = spec_phase_walk(
                    self.phases@,
                    0,
                    self.info.last_phase_id,
                    self.phases@.len(),
                );
                &&& r@.len() == walk.len()
                &&& forall|i: int|
                    0 <= i < walk.len() ==> ((#[trigger] r@[i]).phase_id == walk[i] && (lookup(
                        self.phases@,
                        walk[i],
                    ) matches Some(c) && r@[i].remaining_nfts == spec_mintable(
                        c,
                        lookup(self.whitelist@, (walk[i], user@)),
                    )))
            }),
    {
        let fuel = self.phases.len();
        proof {
            assert(fuel as nat == self.phases@.len());
        }
        self.collect_mintable(user, 0, fuel)
    }

    fn collect_mintable(&self, user: &String, cur: u64, fuel: usize) -> (r: Vec<
        MintableResponse,
    >)
        requires
            self.wf(),
        ensures
            ({
                let walk = spec_phase_walk(
                    self.phases@,
                    cur,
                    self.info.last_phase_id,
                    fuel as nat,
                );
                &&& r@.len() == walk.len()
                &&& forall|i: int|
                    0 <= i < walk.len() ==> ((#[trigger] r@[i]).phase_id == walk[i] && (lookup(
                        self.phases@,
                        walk[i],
                    ) matches Some(c) && r@[i].remaining_nfts == spec_mintable(
                        c,
                        lookup(self.whitelist@, (walk[i], user@)),
                    )))
            }),
        decreases fuel,
    {
        if cur == self.info.last_phase_id || fuel == 0 {
            return Vec::new();
        }
        let c = match self.phases.get(&cur) {
            Some(c) => c,
            None => {
                return Vec::new();
            },
        };
        let n = match c.next_phase_id {
            Some(n) => n,
            None => {
                return Vec::new();
            },
        };
        let nc = match self.phases.get(&n) {
            Some(nc) => nc.duplicate(),
            None => {
                return Vec::new();
            },
        };
        let minted: u64 = match self.whitelist.get(&(n, user.clone())) {
            Some(m) => *m,
            None => {
                if nc.is_public {
                    0
                } else {
                    nc.max_nfts_per_address
                }
            },
        };
        let mintable = if minted <= nc.max_nfts_per_address {
            nc.max_nfts_per_address - minted
        } else {
            0
        };
        let mut out: Vec<MintableResponse> = Vec::new();
        out.push(MintableResponse { phase_id: n, remaining_nfts: mintable });
        let ghost resp0 = out@[0];
        let mut rest = self.collect_mintable(user, n, fuel - 1);
        let ghost rest0 = rest@;
        out.append(&mut rest);
        proof {
            let walk = spec_phase_walk(
                self.phases@,
                cur,
                self.info.last_phase_id,
                fuel as nat,
            );
            let walk_rest = spec_phase_walk(
                self.phases@,
                n,
                self.info.last_phase_id,
                (fuel - 1) as nat,
            );
            assert(walk == seq![n] + walk_rest);
            assert(out@ =~= seq![resp0] + rest0);
            assert forall|i: int| 0 <= i < walk.len() implies ((#[trigger] out@[i]).phase_id
                == walk[i]) by {
                if i == 0 {
                    assert(walk[0] == n && out@[0] == resp0);
                } else {
                    assert(walk[i] == walk_rest[i - 1] && out@[i] == rest0[i - 1]);
                }
            }
            assert forall|i: int| 0 < i < walk.len() implies out@[i] == rest0[i - 1]
                && walk[i] == walk_rest[i - 1] by {}
        }
        out
    }
}

/// What a user may still mint in a phase, given the whitelist record.
pub open spec fn spec_mintable(c: PhaseConfig, minted: Option<u64>) -> int {
    let m = match minted {
        Some(m) => m as int,
        None => if c.is_public {
            0
        } else {
            c.max_nfts_per_address as int
        },
    };
    if m <= c.max_nfts_per_address {
        c.max_nfts_per_address - m
    } else {
        0
    }
}

/// Whether some attached coin covers `amount` of `denom`.
fn funds_cover_amount(funds: &Vec<Coin>, denom: &String, amount: u128) -> (r: bool)
    ensures
        r == spec_funds_cover(funds@, denom@, amount),
{
    let n = funds.len();
    let mut i: usize = 0;
    while i < n
        invariant
            n == funds@.len(),
            i <= n,
            forall|j: int|
                0 <= j < i ==> !((#[trigger] funds@[j]).denom@ == denom@ && funds@[j].amount
                    >= amount),
        decreases n - i,
    {
        if funds[i].denom == *denom && funds[i].amount >= amount {
            return true;
        }
        i = i + 1;
    }
    false
}

} // verus!
