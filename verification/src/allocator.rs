//! The random token-id allocator: a seeded deterministic randomness
//! provider plus a swap-to-end allocation table — an incremental
//! Fisher-Yates shuffle that never materializes the full id array.
//!
//! The table maps an array slot to a token id only where the two
//! differ; an absent slot stands for "slot + 1".  Consuming a slot
//! moves the last live slot's value into it and shrinks the live range
//! by one, so the live slots always hold each unissued id exactly once.

use vstd::prelude::*;

use crate::launchpad::Launchpad;
use crate::store::{contains_key, index_of, insert_pos, lookup};
use crate::text::{dec_str, u64_to_string};

verus! {

/// The output stream of the sub-randomness provider seeded by a seed
/// and a key: deterministic in the seed, the key and the position.
pub uninterp spec fn sub_randomness_of(seed: Seq<u8>, key: Seq<char>, index: int) -> Seq<u8>;

/// Relies on `nois::sub_randomness_with_key` and
/// `SubRandomnessProvider::provide`: the provider's outputs depend on
/// the seed and key alone — same seed and key, same outputs.
#[verifier::external_body]
fn draw_sub_randomness(seed: &[u8; 32], key: &str) -> (r: ([u8; 32], [u8; 32]))
    ensures
        r.0@ == sub_randomness_of(seed@, key@, 0),
        r.1@ == sub_randomness_of(seed@, key@, 1),
{
    let mut provider = nois::sub_randomness_with_key(*seed, key);
    let first = provider.provide();
    let second = provider.provide();
    (first, second)
}

/// What `nois::int_in_range` answers for a randomness and bounds.
pub uninterp spec fn int_in_range_of(randomness: Seq<u8>, begin: u64, end: u64) -> u64;

/// Relies on `nois::int_in_range`: a draw in `[begin, end]`, both
/// bounds included, a function of the randomness and the bounds alone.
/// An empty range would abort, so the bounds must be ordered.
#[verifier::external_body]
fn pick_int_in_range(randomness: &[u8; 32], begin: u64, end: u64) -> (r: u64)
    requires
        begin <= end,
    ensures
        begin <= r <= end,
        r == int_in_range_of(randomness@, begin, end),
{
    nois::int_in_range(*randomness, begin, end)
}

/// The token id held by an array slot: the stored value, or "slot + 1"
/// where the table holds nothing.
pub open spec fn spec_slot(s: Seq<(u64, u64)>, pos: u64) -> int {
    match lookup(s, pos) {
        Some(v) => v as int,
        None => pos + 1,
    }
}

/// The table after one deal at `pos` with last live slot `last_pos`:
/// the last slot's id is bound to `pos` (overwriting in place or
/// inserting at its ordered position) and the binding at `last_pos` is
/// dropped.
pub open spec fn spec_table_after_deal(s: Seq<(u64, u64)>, pos: u64, last_pos: u64) -> Seq<
    (u64, u64),
> {
    let last_val = spec_slot(s, last_pos) as u64;
    let s1 = if contains_key(s, pos) {
        s.update(index_of(s, pos), (pos, last_val))
    } else {
        s.insert(insert_pos(s, pos), (pos, last_val))
    };
    if contains_key(s1, last_pos) {
        s1.remove(index_of(s1, last_pos))
    } else {
        s1
    }
}

/// The position one draw picks among `n` remaining slots.
pub open spec fn spec_draw_position(seed: Seq<u8>, key: Seq<char>, n: u64) -> u64 {
    if n > 1 {
        int_in_range_of(sub_randomness_of(seed, key, 1), 0, (n - 1) as u64)
    } else {
        0
    }
}

/// The token ids a run of `count` draws deals, starting from `seed`
/// and a table with `remaining` live slots, all keyed by `key`: each
/// draw re-seeds, picks a position, deals its slot, and compacts the
/// table, exactly as the drawing functions do.
pub open spec fn spec_mint_tokens(
    seed: Seq<u8>,
    table: Seq<(u64, u64)>,
    key: Seq<char>,
    remaining: u64,
    count: nat,
) -> Seq<int>
    decreases count,
{
    if count == 0 || remaining == 0 {
        Seq::empty()
    } else {
        let pos = spec_draw_position(seed, key, remaining);
        seq![spec_slot(table, pos)] + spec_mint_tokens(
            sub_randomness_of(seed, key, 0),
            spec_table_after_deal(table, pos, (remaining - 1) as u64),
            key,
            (remaining - 1) as u64,
            (count - 1) as nat,
        )
    }
}

/// A run of at most `remaining` draws deals one token per draw.
pub proof fn lemma_mint_tokens_len(
    seed: Seq<u8>,
    table: Seq<(u64, u64)>,
    key: Seq<char>,
    remaining: u64,
    count: nat,
)
    requires
        count <= remaining,
    ensures
        spec_mint_tokens(seed, table, key, remaining, count).len() == count,
    decreases count,
{
    if count > 0 {
        let pos = spec_draw_position(seed, key, remaining);
        lemma_mint_tokens_len(
            sub_randomness_of(seed, key, 0),
            spec_table_after_deal(table, pos, (remaining - 1) as u64),
            key,
            (remaining - 1) as u64,
            (count - 1) as nat,
        );
    }
}

/// The allocator over `n` live slots deals ids from `[1, max]`, each
/// live slot holding a different one.
pub open spec fn spec_allocator_inv(s: Seq<(u64, u64)>, n: u64, max: u64) -> bool {
    &&& forall|q: u64| q < n ==> 1 <= #[trigger] spec_slot(s, q) <= max
    &&& forall|q1: u64, q2: u64|
        q1 < q2 < n ==> #[trigger] spec_slot(s, q1) != #[trigger] spec_slot(s, q2)
}

/// The set of ids the live slots still hold.
pub open spec fn spec_slot_set(s: Seq<(u64, u64)>, n: u64) -> Set<int> {
    Set::new(|v: int| exists|q: u64| q < n && spec_slot(s, q) == v)
}

/// A fresh, empty table over `n <= max` slots is a valid allocator and
/// holds exactly the ids `1..=n`.
pub proof fn lemma_fresh_allocator(s: Seq<(u64, u64)>, n: u64, max: u64)
    requires
        s.len() == 0,
        n <= max,
    ensures
        spec_allocator_inv(s, n, max),
        spec_slot_set(s, n) =~= Set::new(|v: int| 1 <= v <= n),
{
    assert forall|q: u64| q < n implies 1 <= #[trigger] spec_slot(s, q) <= max by {
        assert(!contains_key(s, q));
    }
    assert forall|q1: u64, q2: u64| q1 < q2 < n implies #[trigger] spec_slot(s, q1)
        != #[trigger] spec_slot(s, q2) by {
        assert(!contains_key(s, q1) && !contains_key(s, q2));
    }
    assert forall|v: int| 1 <= v <= n implies spec_slot_set(s, n).contains(v) by {
        let q = (v - 1) as u64;
        assert(!contains_key(s, q));
        assert(q < n && spec_slot(s, q) == v);
    }
}

impl Launchpad {
    /// Deals the token id at `position` and compacts the table: the
    /// last live slot's id moves into the consumed slot and the live
    /// range shrinks by one.
    pub fn get_token_id_from_position(&mut self, position: u64, number_remaining_nfts: u64) -> (r:
        u64)
        requires
            old(self).wf(),
            position < number_remaining_nfts,
        ensures
            final(self).wf(),
            final(self).config == old(self).config,
            final(self).info == old(self).info,
            final(self).phases@ == old(self).phases@,
            final(self).whitelist@ == old(self).whitelist@,
            final(self).random_seed == old(self).random_seed,
            r == spec_slot(old(self).remaining_token_ids@, position),
            final(self).remaining_token_ids@ == spec_table_after_deal(
                old(self).remaining_token_ids@,
                position,
                (number_remaining_nfts - 1) as u64,
            ),
            !contains_key(
                final(self).remaining_token_ids@,
                (number_remaining_nfts - 1) as u64,
            ),
            forall|q: u64|
                q < number_remaining_nfts - 1 && q != position ==> spec_slot(
                    final(self).remaining_token_ids@,
                    q,
                ) == spec_slot(old(self).remaining_token_ids@, q),
            position < number_remaining_nfts - 1 ==> spec_slot(
                final(self).remaining_token_ids@,
                position,
            ) == spec_slot(
                old(self).remaining_token_ids@,
                (number_remaining_nfts - 1) as u64,
            ),
    {
        let last_pos = number_remaining_nfts - 1;
        let token = match self.remaining_token_ids.get(&position) {
            Some(v) => *v,
            None => position + 1,
        };
        let last = match self.remaining_token_ids.get(&last_pos) {
            Some(v) => *v,
            None => last_pos + 1,
        };
        self.remaining_token_ids.save(position, last);
        self.remaining_token_ids.remove(&last_pos);
        token
    }

    /// Draws a pseudo-random token id for `sender` at `current_time`:
    /// re-seeds the persisted randomness, draws a uniform position
    /// among the remaining slots, and deals that slot.  Everything is a
    /// function of the stored seed and the inputs, so a fixed seed and
    /// a fixed sequence of draws replay to the same ids.
    pub fn generate_random_token_id(
        &mut self,
        current_time: u64,
        sender: &String,
        number_remaining_nfts: u64,
    ) -> (r: u64)
        requires
            old(self).wf(),
            number_remaining_nfts >= 1,
        ensures
            final(self).wf(),
            final(self).config == old(self).config,
            final(self).info == old(self).info,
            final(self).phases@ == old(self).phases@,
            final(self).whitelist@ == old(self).whitelist@,
            ({
                let key = sender@ + dec_str(current_time as nat);
                let pos: u64 = spec_draw_position(
                    old(self).random_seed@,
                    key,
                    number_remaining_nfts,
                );
                &&& final(self).random_seed@ == sub_randomness_of(
                    old(self).random_seed@,
                    key,
                    0,
                )
                &&& pos < number_remaining_nfts
                &&& r == spec_slot(old(self).remaining_token_ids@, pos)
                &&& final(self).remaining_token_ids@ == spec_table_after_deal(
                    old(self).remaining_token_ids@,
                    pos,
                    (number_remaining_nfts - 1) as u64,
                )
                &&& !contains_key(
                    final(self).remaining_token_ids@,
                    (number_remaining_nfts - 1) as u64,
                )
                &&& forall|q: u64|
                    q < number_remaining_nfts - 1 && q != pos ==> spec_slot(
                        final(self).remaining_token_ids@,
                        q,
                    ) == spec_slot(old(self).remaining_token_ids@, q)
                &&& (pos < number_remaining_nfts - 1 ==> spec_slot(
                    final(self).remaining_token_ids@,
                    pos,
                ) == spec_slot(
                    old(self).remaining_token_ids@,
                    (number_remaining_nfts - 1) as u64,
                ))
            }),
    {
        let mut key = sender.clone();
        let time_str = u64_to_string(current_time);
        key.append(time_str.as_str());
        let (new_seed, randomness) = draw_sub_randomness(&self.random_seed, key.as_str());
        self.random_seed = new_seed;
        let position: u64 = if number_remaining_nfts > 1 {
            pick_int_in_range(&randomness, 0, number_remaining_nfts - 1)
        } else {
            0
        };
        self.get_token_id_from_position(position, number_remaining_nfts)
    }
}

/// One deal preserves the allocator: the dealt id was live, the
/// remaining live slots still hold distinct in-range ids, and exactly
/// the dealt id has left the live set.  The hypotheses are what the
/// deal's contract states of the two table snapshots.
pub proof fn lemma_deal_preserves_allocator(
    s0: Seq<(u64, u64)>,
    s1: Seq<(u64, u64)>,
    n: u64,
    max: u64,
    position: u64,
    token: int,
)
    requires
        spec_allocator_inv(s0, n, max),
        n >= 1,
        position < n,
        token == spec_slot(s0, position),
        forall|q: u64|
            q < n - 1 && q != position ==> spec_slot(s1, q) == spec_slot(s0, q),
        position < n - 1 ==> spec_slot(s1, position) == spec_slot(s0, (n - 1) as u64),
    ensures
        1 <= token <= max,
        spec_allocator_inv(s1, (n - 1) as u64, max),
        spec_slot_set(s1, (n - 1) as u64) =~= spec_slot_set(s0, n).remove(token),
{
    let m = (n - 1) as u64;
    // each live slot of s1 holds some live slot of s0 other than
    // `position`
    assert forall|q: u64| q < m implies (exists|q0: u64|
        q0 < n && q0 != position && #[trigger] spec_slot(s1, q) == spec_slot(s0, q0)) by {
        if q == position {
            assert(spec_slot(s1, q) == spec_slot(s0, (n - 1) as u64));
            assert(((n - 1) as u64) != position && ((n - 1) as u64) < n);
        } else {
            assert(spec_slot(s1, q) == spec_slot(s0, q));
        }
    }
    assert forall|q: u64| q < m implies 1 <= #[trigger] spec_slot(s1, q) <= max by {
        let q0 = choose|q0: u64|
            q0 < n && q0 != position && spec_slot(s1, q) == spec_slot(s0, q0);
        assert(1 <= spec_slot(s0, q0) <= max);
    }
    assert forall|q1: u64, q2: u64| q1 < q2 < m implies #[trigger] spec_slot(s1, q1)
        != #[trigger] spec_slot(s1, q2) by {
        if q1 == position {
            assert(spec_slot(s1, q1) == spec_slot(s0, (n - 1) as u64));
            assert(spec_slot(s1, q2) == spec_slot(s0, q2));
            assert(q2 < (n - 1) as u64);
        } else if q2 == position {
            assert(spec_slot(s1, q2) == spec_slot(s0, (n - 1) as u64));
            assert(spec_slot(s1, q1) == spec_slot(s0, q1));
            assert(q1 < (n - 1) as u64);
        } else {
            assert(spec_slot(s1, q1) == spec_slot(s0, q1));
            assert(spec_slot(s1, q2) == spec_slot(s0, q2));
        }
    }
    assert forall|v: int| #[trigger] spec_slot_set(s1, m).contains(v) implies spec_slot_set(
        s0,
        n,
    ).remove(token).contains(v) by {
        let q = choose|q: u64| q < m && spec_slot(s1, q) == v;
        let q0 = choose|q0: u64|
            q0 < n && q0 != position && spec_slot(s1, q) == spec_slot(s0, q0);
        assert(spec_slot(s0, q0) == v);
        if q0 < position {
            assert(spec_slot(s0, q0) != spec_slot(s0, position));
        } else {
            assert(spec_slot(s0, position) != spec_slot(s0, q0));
        }
    }
    assert forall|v: int| spec_slot_set(s0, n).remove(token).contains(v)
        implies #[trigger] spec_slot_set(s1, m).contains(v) by {
        let q0 = choose|q0: u64| q0 < n && spec_slot(s0, q0) == v;
        assert(q0 != position);
        if q0 == (n - 1) as u64 {
            if position < m {
                assert(spec_slot(s1, position) == v);
            } else {
                // position == n - 1 == q0, excluded above
                assert(false);
            }
        } else {
            assert(q0 < m && q0 != position);
            assert(spec_slot(s1, q0) == v);
        }
    }
}

/// The id set left after a sequence of deals.
pub open spec fn spec_remaining_after(initial: Set<int>, tokens: Seq<int>) -> Set<int>
    decreases tokens.len(),
{
    if tokens.len() == 0 {
        initial
    } else {
        spec_remaining_after(initial, tokens.drop_last()).remove(tokens.last())
    }
}

/// Random allocation covers every id exactly once: when each deal of a
/// sequence returns an id still in the remaining set — which is what
/// [`lemma_deal_preserves_allocator`] establishes of every deal — the
/// dealt ids are pairwise distinct, and a full-length sequence deals
/// exactly the initial id set.
pub proof fn lemma_deal_sequence_covers(initial: Set<int>, tokens: Seq<int>)
    requires
        initial.finite(),
        tokens.len() <= initial.len(),
        forall|i: int|
            0 <= i < tokens.len() ==> spec_remaining_after(initial, tokens.take(i)).contains(
                #[trigger] tokens[i],
            ),
    ensures
        spec_remaining_after(initial, tokens).finite(),
        spec_remaining_after(initial, tokens).len() == initial.len() - tokens.len(),
        forall|i: int, j: int| 0 <= i < j < tokens.len() ==> tokens[i] != tokens[j],
        forall|v: int|
            spec_remaining_after(initial, tokens).contains(v) <==> (initial.contains(v)
                && !tokens.contains(v)),
        tokens.len() == initial.len() ==> (forall|v: int|
            initial.contains(v) <==> tokens.contains(v)),
    decreases tokens.len(),
{
    if tokens.len() == 0 {
        assert forall|v: int|
            spec_remaining_after(initial, tokens).contains(v) <==> (initial.contains(v)
                && !tokens.contains(v)) by {}
    } else {
        let ts0 = tokens.drop_last();
        let t = tokens.last();
        assert forall|i: int|
            0 <= i < ts0.len() implies spec_remaining_after(initial, ts0.take(i)).contains(
            #[trigger] ts0[i],
        ) by {
            assert(ts0.take(i) =~= tokens.take(i));
            assert(ts0[i] == tokens[i]);
        }
        lemma_deal_sequence_covers(initial, ts0);
        let r0 = spec_remaining_after(initial, ts0);
        assert(ts0.take(tokens.len() - 1) =~= ts0);
        assert(tokens.take(tokens.len() - 1) =~= ts0);
        assert(r0.contains(t));
        assert(spec_remaining_after(initial, tokens) == r0.remove(t));
        assert(r0.remove(t).len() == r0.len() - 1);
        assert(!ts0.contains(t));
        assert forall|i: int, j: int| 0 <= i < j < tokens.len() implies tokens[i] != tokens[j] by {
            if j < tokens.len() - 1 {
                assert(ts0[i] == tokens[i] && ts0[j] == tokens[j]);
            } else {
                assert(tokens[j] == t);
                assert(ts0[i] == tokens[i]);
                if tokens[i] == t {
                    assert(ts0.contains(t));
                }
            }
        }
        assert forall|v: int|
            spec_remaining_after(initial, tokens).contains(v) <==> (initial.contains(v)
                && !tokens.contains(v)) by {
            if tokens.contains(v) {
                let i = choose|i: int| 0 <= i < tokens.len() && tokens[i] == v;
                if i < tokens.len() - 1 {
                    assert(ts0[i] == v);
                    assert(ts0.contains(v));
                }
            }
            if !tokens.contains(v) && initial.contains(v) {
                assert(!ts0.contains(v)) by {
                    if ts0.contains(v) {
                        let i = choose|i: int| 0 <= i < ts0.len() && ts0[i] == v;
                        assert(tokens[i] == v);
                    }
                }
                assert(v != t) by {
                    if v == t {
                        assert(tokens[tokens.len() - 1] == v);
                    }
                }
            }
        }
        if tokens.len() == initial.len() {
            assert(spec_remaining_after(initial, tokens).len() == 0);
            assert forall|v: int| initial.contains(v) implies tokens.contains(v) by {
                if !tokens.contains(v) {
                    assert(spec_remaining_after(initial, tokens).contains(v));
                    assert(spec_remaining_after(initial, tokens).len() > 0) by {
                        crate::allocator::lemma_nonempty_set(
                            spec_remaining_after(initial, tokens),
                            v,
                        );
                    }
                }
            }
            assert forall|v: int| tokens.contains(v) implies initial.contains(v) by {
                let i = choose|i: int| 0 <= i < tokens.len() && tokens[i] == v;
                assert(spec_remaining_after(initial, tokens.take(i)).contains(v));
                lemma_remaining_subset(initial, tokens.take(i), v);
            }
        }
    }
}

/// Random allocation, end to end: a run that starts from a fresh table
/// over `max` slots and deals one in-range slot per step — each step's
/// table related to the next exactly as the deal's contract states —
/// produces pairwise distinct token ids, and a full run of `max` deals
/// produces every id in `[1, max]` exactly once.
pub proof fn lemma_allocator_run(
    tables: Seq<Seq<(u64, u64)>>,
    positions: Seq<u64>,
    tokens: Seq<int>,
    max: u64,
)
    requires
        tables.len() == max + 1,
        positions.len() == max,
        tokens.len() == max,
        tables[0].len() == 0,
        forall|i: int| 0 <= i < max ==> #[trigger] positions[i] < max - i,
        forall|i: int|
            0 <= i < max ==> #[trigger] tokens[i] == spec_slot(tables[i], positions[i]),
        forall|i: int, q: u64|
            0 <= i < max && q < max - i - 1 && q != positions[i] ==> #[trigger] spec_slot(
                tables[i + 1],
                q,
            ) == spec_slot(tables[i], q),
        forall|i: int|
            0 <= i < max && #[trigger] positions[i] < max - i - 1 ==> spec_slot(
                tables[i + 1],
                positions[i],
            ) == spec_slot(tables[i], (max - i - 1) as u64),
    ensures
        forall|i: int, j: int| 0 <= i < j < max ==> tokens[i] != tokens[j],
        forall|v: int| 1 <= v <= max <==> tokens.contains(v),
{
    let initial = spec_slot_set(tables[0], max);
    lemma_fresh_allocator(tables[0], max, max);
    assert(initial =~= Set::new(|v: int| 1 <= v <= max));
    assert(initial.finite() && initial.len() == max) by {
        lemma_range_set_len(max as int);
        assert(Set::new(|v: int| 1 <= v <= max).finite());
        assert(Set::new(|v: int| 1 <= v <= max).len() == max);
    }
    // each step's remaining set is the slot set of its table
    assert forall|i: int| 0 <= i <= max implies spec_allocator_inv(
        tables[i],
        (max - i) as u64,
        max,
    ) && spec_remaining_after(initial, tokens.take(i)) =~= spec_slot_set(
        tables[i],
        (max - i) as u64,
    ) by {
        lemma_allocator_run_step(tables, positions, tokens, max, i);
    }
    assert forall|i: int|
        0 <= i < tokens.len() implies spec_remaining_after(initial, tokens.take(i)).contains(
        #[trigger] tokens[i],
    ) by {
        lemma_allocator_run_step(tables, positions, tokens, max, i);
        let n = (max - i) as u64;
        assert(spec_allocator_inv(tables[i], n, max));
        assert(positions[i] < n);
        assert(spec_slot_set(tables[i], n).contains(tokens[i]));
    }
    lemma_deal_sequence_covers(initial, tokens);
    assert forall|v: int| 1 <= v <= max implies tokens.contains(v) by {
        assert(initial.contains(v));
    }
    assert forall|v: int| tokens.contains(v) implies 1 <= v <= max by {
        assert(initial.contains(v));
    }
}

/// The invariant of [`lemma_allocator_run`] at step `i`: the table is a
/// valid allocator over its remaining slots, and its live ids are
/// exactly what the dealt prefix has not yet removed.
proof fn lemma_allocator_run_step(
    tables: Seq<Seq<(u64, u64)>>,
    positions: Seq<u64>,
    tokens: Seq<int>,
    max: u64,
    i: int,
)
    requires
        tables.len() == max + 1,
        positions.len() == max,
        tokens.len() == max,
        tables[0].len() == 0,
        forall|j: int| 0 <= j < max ==> #[trigger] positions[j] < max - j,
        forall|j: int|
            0 <= j < max ==> #[trigger] tokens[j] == spec_slot(tables[j], positions[j]),
        forall|j: int, q: u64|
            0 <= j < max && q < max - j - 1 && q != positions[j] ==> #[trigger] spec_slot(
                tables[j + 1],
                q,
            ) == spec_slot(tables[j], q),
        forall|j: int|
            0 <= j < max && #[trigger] positions[j] < max - j - 1 ==> spec_slot(
                tables[j + 1],
                positions[j],
            ) == spec_slot(tables[j], (max - j - 1) as u64),
        0 <= i <= max,
    ensures
        spec_allocator_inv(tables[i], (max - i) as u64, max),
        spec_remaining_after(spec_slot_set(tables[0], max), tokens.take(i)) =~= spec_slot_set(
            tables[i],
            (max - i) as u64,
        ),
    decreases i,
{
    let initial = spec_slot_set(tables[0], max);
    if i == 0 {
        lemma_fresh_allocator(tables[0], max, max);
        assert(tokens.take(0) =~= Seq::<int>::empty());
    } else {
        lemma_allocator_run_step(tables, positions, tokens, max, i - 1);
        let n = (max - (i - 1)) as u64;
        assert forall|q: u64| q < n - 1 && q != positions[i - 1] implies spec_slot(
            tables[i],
            q,
        ) == spec_slot(tables[i - 1], q) by {
            assert(spec_slot(tables[(i - 1) + 1], q) == spec_slot(tables[i - 1], q));
        }
        if positions[i - 1] < n - 1 {
            assert(spec_slot(tables[(i - 1) + 1], positions[i - 1]) == spec_slot(
                tables[i - 1],
                (max - (i - 1) - 1) as u64,
            ));
        }
        lemma_deal_preserves_allocator(
            tables[i - 1],
            tables[i],
            n,
            max,
            positions[i - 1],
            tokens[i - 1],
        );
        assert(tokens.take(i).drop_last() =~= tokens.take(i - 1));
        assert(tokens.take(i).last() == tokens[i - 1]);
        assert(spec_remaining_after(initial, tokens.take(i)) == spec_remaining_after(
            initial,
            tokens.take(i - 1),
        ).remove(tokens[i - 1]));
    }
}

/// The cardinality of `{1, ..., n}`.
proof fn lemma_range_set_len(n: int)
    requires
        n >= 0,
    ensures
        Set::new(|v: int| 1 <= v <= n).finite(),
        Set::new(|v: int| 1 <= v <= n).len() == n,
    decreases n,
{
    if n == 0 {
        assert(Set::new(|v: int| 1 <= v <= n) =~= Set::<int>::empty());
    } else {
        lemma_range_set_len(n - 1);
        assert(Set::new(|v: int| 1 <= v <= n) =~= Set::new(
            |v: int| 1 <= v <= n - 1,
        ).insert(n));
    }
}

/// A finite set containing an element has positive cardinality.
pub proof fn lemma_nonempty_set(s: Set<int>, v: int)
    requires
        s.finite(),
        s.contains(v),
    ensures
        s.len() > 0,
{
    if s.len() == 0 {
        assert(s =~= Set::empty());
    }
}

/// Whatever remains after some deals was in the initial set.
pub proof fn lemma_remaining_subset(initial: Set<int>, tokens: Seq<int>, v: int)
    requires
        spec_remaining_after(initial, tokens).contains(v),
    ensures
        initial.contains(v),
    decreases tokens.len(),
{
    if tokens.len() > 0 {
        lemma_remaining_subset(initial, tokens.drop_last(), v);
    }
}

} // verus!
