//! Identity tokens: handles for windows that are minted before the native
//! window exists, and the table that resolves them once it does.

use std::collections::HashMap;
use vstd::prelude::*;

verus! {

broadcast use vstd::std_specs::hash::group_hash_axioms;

/// The number of distinct tokens.
pub const TOKEN_SPACE: u64 = 0x1_0000_0000;

/// The table from identity tokens to native window identifiers.
///
/// A token enters the table when it is minted, with no native window behind
/// it; the identifier is filled in once the window has been realized. Entries
/// are never removed.
pub struct WindowTable {
    last: u32,
    entries: HashMap<u32, Option<u64>>,
}

/// The token that follows `token`, wrapping round at the end of the range.
pub open spec fn successor(token: u32, steps: int) -> u32 {
    ((token + steps) % (TOKEN_SPACE as int)) as u32
}

/// The token that `new_id` hands out when `last` was handed out before it and
/// `taken` holds the tokens in use: the first one after `last`, searching
/// upwards and wrapping round, that is free.
pub open spec fn next_free(taken: Set<u32>, last: u32, token: u32) -> bool {
    exists|steps: int|
        {
            &&& 1 <= steps <= TOKEN_SPACE
            &&& token == #[trigger] successor(last, steps)
            &&& !taken.contains(token)
            &&& forall|k: int| 1 <= k < steps ==> taken.contains(#[trigger] successor(last, k))
        }
}

/// The table once the tokens in `tokens` have been entered, none resolved.
pub open spec fn entered(table: Map<u32, Option<u64>>, tokens: Seq<u32>) -> Map<u32, Option<u64>>
    decreases tokens.len(),
{
    if tokens.len() == 0 {
        table
    } else {
        entered(table, tokens.drop_last()).insert(tokens.last(), None)
    }
}

/// `tokens` are the tokens that `new_id` hands out, one after the other,
/// starting from the table `table` whose last token was `last`.
pub open spec fn minted_in_turn(table: Map<u32, Option<u64>>, last: u32, tokens: Seq<u32>) -> bool
    decreases tokens.len(),
{
    if tokens.len() == 0 {
        true
    } else {
        let earlier = tokens.drop_last();
        &&& minted_in_turn(table, last, earlier)
        &&& next_free(
            entered(table, earlier).dom(),
            if earlier.len() == 0 {
                last
            } else {
                earlier.last()
            },
            tokens.last(),
        )
    }
}

impl WindowTable {
    /// The entries of the table.
    pub closed spec fn view(&self) -> Map<u32, Option<u64>> {
        self.entries@
    }

    /// The token that was minted last (zero before the first).
    pub closed spec fn last_issued(&self) -> u32 {
        self.last
    }

    /// Some token is still free.
    pub open spec fn has_room(&self) -> bool {
        self.room_for(1)
    }

    /// At least `n` tokens are still free.
    pub open spec fn room_for(&self, n: nat) -> bool {
        self@.dom().len() + n <= TOKEN_SPACE
    }

    /// A table holds finitely many tokens.
    pub proof fn lemma_finite(&self)
        ensures
            self@.dom().finite(),
    {
    }

    /// An empty table.
    pub fn new() -> (table: Self)
        ensures
            table@ == Map::<u32, Option<u64>>::empty(),
            table.last_issued() == 0,
            table.has_room(),
    {
        WindowTable { last: 0, entries: HashMap::new() }
    }

    /// Tells whether a token can still be minted.
    pub fn room_left(&self) -> (room: bool)
        ensures
            room == self.has_room(),
    {
        (self.entries.len() as u64) < TOKEN_SPACE
    }

    /// Tells whether `n` tokens can still be minted.
    pub fn has_room_for(&self, n: usize) -> (room: bool)
        ensures
            room == self.room_for(n as nat),
    {
        let used = self.entries.len() as u64;
        used <= TOKEN_SPACE && n as u64 <= TOKEN_SPACE - used
    }

    /// Records the native window that has been realized for `token`. A token
    /// that was never minted is not entered.
    pub fn publish(&mut self, token: u32, native: Option<u64>)
        ensures
            final(self).last_issued() == old(self).last_issued(),
            old(self)@.contains_key(token) ==> final(self)@ == old(self)@.insert(token, native),
            !old(self)@.contains_key(token) ==> final(self)@ == old(self)@,
    {
        if self.entries.contains_key(&token) {
            self.entries.insert(token, native);
        }
    }
}

/// Mints a fresh identity token and enters it, unresolved, into the table.
pub fn new_id(table: &mut WindowTable) -> (token: u32)
    requires
        old(table).has_room(),
    ensures
        next_free(old(table)@.dom(), old(table).last_issued(), token),
        final(table)@ == old(table)@.insert(token, None),
        final(table).last_issued() == token,
{
    let ghost taken = table@.dom();
    let ghost start = table.last;
    proof {
        lemma_free_token_exists(taken);
    }
    let ghost free: u32 = choose|t: u32| !taken.contains(t);
    let mut l: u32 = table.last;
    let ghost mut steps: int = 0;
    loop
        invariant_except_break
            0 <= steps < TOKEN_SPACE,
            forall|k: int| 1 <= k <= steps ==> taken.contains(#[trigger] successor(start, k)),
            table.entries@ == old(table).entries@,
        invariant
            l == successor(start, steps),
            taken == old(table)@.dom(),
            start == old(table).last,
            !taken.contains(free),
        ensures
            1 <= steps <= TOKEN_SPACE,
            l == successor(start, steps),
            !taken.contains(l),
            forall|k: int| 1 <= k < steps ==> taken.contains(#[trigger] successor(start, k)),
            table.entries@ == old(table).entries@.insert(l, None),
        decreases distance(l, free),
    {
        let ghost prev = l;
        l = l.wrapping_add(1);
        proof {
            steps = steps + 1;
            assert(l == successor(start, steps)) by {
                lemma_successor_step(start, steps - 1);
            }
        }
        if !table.entries.contains_key(&l) {
            table.entries.insert(l, None);
            break ;
        }
        proof {
            assert(taken.contains(l));
            assert(l != free);
            lemma_distance_decreases(prev, free);
            if steps == TOKEN_SPACE {
                assert(successor(start, TOKEN_SPACE as int) == start);
                lemma_wrapped_round(taken, start);
                assert(false);
            }
        }
    }
    table.last = l;
    l
}

/// Resolves a token to the native window behind it, if the token is known
/// and its window has been realized.
pub fn get_window_id(table: &WindowTable, id: u32) -> (native: Option<u64>)
    ensures
        native == if table@.contains_key(id) {
            table@[id]
        } else {
            None
        },
{
    match table.entries.get(&id) {
        Some(entry) => *entry,
        None => None,
    }
}

/// Mints a token if the table has room for one.
pub fn try_new_id(table: &mut WindowTable) -> (minted: Option<u32>)
    ensures
        old(table).has_room() <==> minted is Some,
        minted matches Some(token) ==> {
            &&& next_free(old(table)@.dom(), old(table).last_issued(), token)
            &&& final(table)@ == old(table)@.insert(token, None)
            &&& final(table).last_issued() == token
        },
        minted is None ==> *final(table) == *old(table),
{
    if table.room_left() {
        Some(new_id(table))
    } else {
        None
    }
}

/// How many tokens lie strictly between `from` and `to`, going upwards from
/// `from` and wrapping round.
spec fn distance(from: u32, to: u32) -> nat {
    if to > from {
        (to - from - 1) as nat
    } else {
        (to + TOKEN_SPACE - from - 1) as nat
    }
}

proof fn lemma_successor_step(start: u32, steps: int)
    requires
        0 <= steps,
    ensures
        successor(start, steps + 1) == if successor(start, steps) == u32::MAX {
            0u32
        } else {
            (successor(start, steps) + 1) as u32
        },
{
    let m = TOKEN_SPACE as int;
    let a = start + steps;
    assert((a + 1) % m == if a % m == m - 1 { 0 } else { a % m + 1 }) by (nonlinear_arith)
        requires
            m > 0,
            a >= 0,
    ;
}

proof fn lemma_distance_decreases(from: u32, to: u32)
    requires
        from.wrapping_add(1) != to,
    ensures
        distance(from.wrapping_add(1), to) < distance(from, to),
{
}

/// Once every token after `start` up to `start` itself has been found taken,
/// all of them are, and the table has no room.
proof fn lemma_wrapped_round(taken: Set<u32>, start: u32)
    requires
        forall|k: int| 1 <= k <= TOKEN_SPACE ==> taken.contains(#[trigger] successor(start, k)),
    ensures
        forall|t: u32| taken.contains(t),
{
    assert forall|t: u32| taken.contains(t) by {
        let m = TOKEN_SPACE as int;
        let k: int = if t > start { t - start } else { t + m - start };
        assert(1 <= k <= m);
        assert((start + k) % m == t as int) by {
            if t > start {
                assert(start + k == t);
                assert((t as int) % m == t) by (nonlinear_arith)
                    requires
                        0 <= t < m,
                ;
            } else {
                assert(start + k == t + m);
                assert((t + m) % m == t) by (nonlinear_arith)
                    requires
                        0 <= t < m,
                        m > 0,
                ;
            }
        }
        assert(successor(start, k) == t);
    }
}

/// A finite set that holds the first `n` tokens has at least `n` elements.
proof fn lemma_covering(taken: Set<u32>, n: nat)
    requires
        taken.finite(),
        n <= TOKEN_SPACE,
        forall|t: u32| t < n ==> taken.contains(t),
    ensures
        taken.len() >= n,
    decreases n,
{
    if n > 0 {
        let top = (n - 1) as u32;
        let rest = taken.remove(top);
        assert forall|t: u32| t < n - 1 implies rest.contains(t) by {
            assert(taken.contains(t));
        }
        lemma_covering(rest, (n - 1) as nat);
    }
}

/// A table with room has a free token.
proof fn lemma_free_token_exists(taken: Set<u32>)
    requires
        taken.finite(),
        taken.len() < TOKEN_SPACE,
    ensures
        exists|t: u32| !taken.contains(t),
{
    if forall|t: u32| taken.contains(t) {
        lemma_covering(taken, TOKEN_SPACE as nat);
    }
}

} // verus!
