use vstd::prelude::*;

use crate::contract::{after, create_step, lookup_step, sell_step, Ledger};
use crate::error::ErrorView;
use crate::state::FlowerView;

verus! {

/// Creating twice under one identifier succeeds the first time and is refused with
/// `IdTaken` for that identifier the second time, whatever the other fields hold.
pub proof fn lemma_create_unique(m: Ledger, f1: FlowerView, f2: FlowerView)
    requires
        !m.contains_key(f1.id),
        f2.id == f1.id,
    ensures
        create_step(m, f1) is Ok,
        create_step(after(m, create_step(m, f1)), f2) == Err::<Ledger, ErrorView>(
            ErrorView::IdTaken(f1.id),
        ),
        after(after(m, create_step(m, f1)), create_step(after(m, create_step(m, f1)), f2))
            == after(m, create_step(m, f1)),
{
}

/// Taking `d` units, with `0 <= d <= a` where `a` is the quantity held, succeeds and
/// leaves `a - d`, every other field as it was.
pub proof fn lemma_sell_within_stock(m: Ledger, id: Seq<char>, d: i32)
    requires
        m.contains_key(id),
        0 <= d <= m[id].amount,
    ensures
        sell_step(m, id, d) is Ok,
        lookup_step(after(m, sell_step(m, id, d)), id) == Some(
            FlowerView { amount: (m[id].amount - d) as i32, ..m[id] },
        ),
        after(m, sell_step(m, id, d))[id].amount == m[id].amount - d,
{
}

/// Taking more units than are held is refused with `NotEnoughAmount`, and a later
/// lookup finds the record as it was.
pub proof fn lemma_sell_beyond_stock(m: Ledger, id: Seq<char>, d: i32)
    requires
        m.contains_key(id),
        d > m[id].amount,
    ensures
        sell_step(m, id, d) == Err::<Ledger, ErrorView>(ErrorView::NotEnoughAmount),
        lookup_step(after(m, sell_step(m, id, d)), id) == lookup_step(m, id),
{
}

/// Against an identifier that was never created, taking units is refused with
/// `IdNotExists` for it, and a lookup finds nothing.
pub proof fn lemma_missing_id(m: Ledger, id: Seq<char>, d: i32)
    requires
        !m.contains_key(id),
    ensures
        sell_step(m, id, d) == Err::<Ledger, ErrorView>(ErrorView::IdNotExists(id)),
        lookup_step(m, id) is None,
{
}

/// A record created and then looked up is found equal, field for field, to the one given.
pub proof fn lemma_create_then_lookup(m: Ledger, f: FlowerView)
    requires
        !m.contains_key(f.id),
    ensures
        lookup_step(after(m, create_step(m, f)), f.id) == Some(f),
{
}

/// Lookups of a record agree across any calls that concern other identifiers:
/// a creation or a sale elsewhere leaves its answer as it was.
pub proof fn lemma_lookup_stable(m: Ledger, id: Seq<char>, f: FlowerView, other: Seq<char>, d: i32)
    requires
        f.id != id,
        other != id,
    ensures
        lookup_step(after(m, create_step(m, f)), id) == lookup_step(m, id),
        lookup_step(after(m, sell_step(m, other, d)), id) == lookup_step(m, id),
{
}

} // verus!
