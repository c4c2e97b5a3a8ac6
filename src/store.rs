use vstd::prelude::*;

use crate::coin::{Coin, CoinType};

verus! {

/// The shared list of coins. Coins are only ever added, at the end, so the
/// order of the list is the order of appending and the order of drawing.
///
/// The caller keeps the store behind one lock: an append and a read of the
/// whole list never overlap.
pub struct CoinStore {
    coins: Vec<Coin>,
}

impl View for CoinStore {
    type V = Seq<Coin>;

    closed spec fn view(&self) -> Seq<Coin> {
        self.coins@
    }
}

/// The button that fires an edge.
#[derive(Clone, Copy, Debug, PartialEq, Eq, Structural)]
pub enum Button {
    /// Drops a bad coin.
    Left,
    /// Drops a good coin.
    Right,
}

/// The kind of coin an edge on the given button drops.
pub open spec fn coin_type_of(b: Button) -> CoinType {
    match b {
        Button::Left => CoinType::BadCoin,
        Button::Right => CoinType::GoodCoin,
    }
}

impl CoinStore {
    /// An empty store.
    pub fn new() -> (s: CoinStore)
        ensures
            s@ == Seq::<Coin>::empty(),
    {
        CoinStore { coins: Vec::new() }
    }

    /// Adds `coin` at the end; every coin already there keeps its place.
    pub fn append(&mut self, coin: Coin)
        ensures
            final(self)@ == old(self)@.push(coin),
    {
        self.coins.push(coin);
    }

    /// The coins in the order they were appended.
    pub fn coins(&self) -> (r: &Vec<Coin>)
        ensures
            r@ == self@,
    {
        &self.coins
    }

    /// A copy of the coins in the order they were appended.
    pub fn snapshot(&self) -> (r: Vec<Coin>)
        ensures
            r@ == self@,
    {
        self.coins.clone()
    }

    /// How many coins the store holds.
    pub fn len(&self) -> (r: usize)
        ensures
            r == self@.len(),
    {
        self.coins.len()
    }

    /// What a producer does on an edge of `button`: append a fresh coin of
    /// the matching kind at the spawn point.
    pub fn on_edge(&mut self, button: Button)
        ensures
            final(self)@ == old(self)@.push(
                Coin { position: crate::coin::spawn_position(), coin_type: coin_type_of(button) },
            ),
    {
        let coin_type = match button {
            Button::Left => CoinType::BadCoin,
            Button::Right => CoinType::GoodCoin,
        };
        self.append(Coin::new(coin_type));
    }
}

/// The contents of a store that held `init`, after the operations `ops` in
/// turn: `Some(c)` is an append of `c`, `None` a read of the whole list, which
/// changes nothing.
pub open spec fn after_ops(init: Seq<Coin>, ops: Seq<Option<Coin>>) -> Seq<Coin>
    decreases ops.len(),
{
    if ops.len() == 0 {
        init
    } else {
        let before = after_ops(init, ops.drop_last());
        match ops.last() {
            Option::Some(c) => before.push(c),
            Option::None => before,
        }
    }
}

/// The coins appended by `ops`, in the order of the operations.
pub open spec fn appended(ops: Seq<Option<Coin>>) -> Seq<Coin>
    decreases ops.len(),
{
    if ops.len() == 0 {
        Seq::empty()
    } else {
        match ops.last() {
            Option::Some(c) => appended(ops.drop_last()).push(c),
            Option::None => appended(ops.drop_last()),
        }
    }
}

/// A store that held `init` and then saw `ops` holds `init` followed by
/// exactly the coins that `ops` appended, in order.
pub proof fn lemma_after_ops(init: Seq<Coin>, ops: Seq<Option<Coin>>)
    ensures
        after_ops(init, ops) == init + appended(ops),
    decreases ops.len(),
{
    if ops.len() > 0 {
        lemma_after_ops(init, ops.drop_last());
        assert(init + appended(ops.drop_last()).push(ops.last().unwrap())
            =~= (init + appended(ops.drop_last())).push(ops.last().unwrap()));
    } else {
        assert(init + appended(ops) =~= init);
    }
}

/// Reads are consistent with the order of appends: a read of the whole list
/// made after the first `i` operations sees every coin appended before it,
/// in order, and none appended after it; and what it sees stays a prefix of
/// the list at every later point.
pub proof fn lemma_snapshot_prefix_consistent(
    init: Seq<Coin>,
    ops: Seq<Option<Coin>>,
    i: int,
    k: int,
)
    requires
        0 <= i <= k <= ops.len(),
    ensures
        after_ops(init, ops.take(i)) == init + appended(ops.take(i)),
        after_ops(init, ops.take(i)).is_prefix_of(after_ops(init, ops.take(k))),
    decreases k - i,
{
    lemma_after_ops(init, ops.take(i));
    if i < k {
        lemma_snapshot_prefix_consistent(init, ops, i, k - 1);
        assert(ops.take(k).drop_last() =~= ops.take(k - 1));
        let before = after_ops(init, ops.take(k - 1));
        let now = after_ops(init, ops.take(k));
        assert(now.len() >= before.len());
        assert forall|j: int| 0 <= j < before.len() implies now[j] == before[j] by {}
    }
}

/// Two appends by one task, with nothing in between, come out in the order
/// they were made: `a` then `b`, right after what was there before.
pub proof fn lemma_append_order(s: Seq<Coin>, a: Coin, b: Coin)
    ensures
        s.push(a).push(b) == s + seq![a, b],
        s.push(a).push(b).len() == s.len() + 2,
        s.push(a).push(b)[s.len() as int] == a,
        s.push(a).push(b)[s.len() + 1int] == b,
{
    assert(s.push(a).push(b) =~= s + seq![a, b]);
}

} // verus!
