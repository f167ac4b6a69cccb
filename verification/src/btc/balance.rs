//! What the unspent outputs on the lock address amount to.

use vstd::prelude::*;
use vstd::seq_lib::{to_multiset_build, to_multiset_insert};
use crate::types::{confirmations, confirmations_at, lex_less, Commitment, Output};

verus! {

/// Confirmations from which on an output no longer counts as the least confirmed one.
pub const LEAST_CONFIRMATIONS_CAP: u64 = 2147483647;

/// The sum `a + b`, kept within `u64`.
pub open spec fn capped(sum: int) -> u64 {
    if sum > u64::MAX {
        u64::MAX
    } else {
        sum as u64
    }
}

/// Whether the output is mined and has at least `needed` confirmations under the tip `tip`.
pub open spec fn is_confirmed(output: Output, tip: u64, needed: u64) -> bool {
    output.height != 0 && confirmations_at(tip, output.height) >= needed
}

/// Sum of the outputs that are in the memory pool or short of `needed` confirmations.
pub open spec fn pending_sum(outputs: Seq<Output>, tip: u64, needed: u64) -> int
    decreases outputs.len(),
{
    if outputs.len() == 0 {
        0
    } else {
        pending_sum(outputs.drop_last(), tip, needed) + (if is_confirmed(
            outputs.last(),
            tip,
            needed,
        ) {
            0
        } else {
            outputs.last().value as int
        })
    }
}

/// Sum of the outputs with at least `needed` confirmations.
pub open spec fn confirmed_sum(outputs: Seq<Output>, tip: u64, needed: u64) -> int
    decreases outputs.len(),
{
    if outputs.len() == 0 {
        0
    } else {
        confirmed_sum(outputs.drop_last(), tip, needed) + (if is_confirmed(
            outputs.last(),
            tip,
            needed,
        ) {
            outputs.last().value as int
        } else {
            0
        })
    }
}

/// Sum of all outputs.
pub open spec fn total_sum(outputs: Seq<Output>) -> int
    decreases outputs.len(),
{
    if outputs.len() == 0 {
        0
    } else {
        total_sum(outputs.drop_last()) + outputs.last().value
    }
}

/// The least number of confirmations among the outputs that are short of
/// `needed`: zero as soon as one is in the memory pool, `None` where all
/// outputs are confirmed.
pub open spec fn least_pending(outputs: Seq<Output>, tip: u64, needed: u64) -> Option<u64>
    decreases outputs.len(),
{
    if outputs.len() == 0 {
        None
    } else {
        let before = least_pending(outputs.drop_last(), tip, needed);
        let output = outputs.last();
        if output.height == 0 {
            Some(0)
        } else if is_confirmed(output, tip, needed) {
            before
        } else {
            match before {
                Some(least) if least <= confirmations_at(tip, output.height) => before,
                _ => Some(confirmations_at(tip, output.height)),
            }
        }
    }
}

/// The least number of confirmations among all outputs: zero as soon as
/// one is in the memory pool; an output with `LEAST_CONFIRMATIONS_CAP`
/// confirmations or more does not count.
pub open spec fn least_of_all(outputs: Seq<Output>, tip: u64) -> Option<u64>
    decreases outputs.len(),
{
    if outputs.len() == 0 {
        None
    } else {
        let before = least_of_all(outputs.drop_last(), tip);
        let output = outputs.last();
        if output.height == 0 {
            Some(0)
        } else {
            let bound = match before {
                Some(least) => least,
                None => LEAST_CONFIRMATIONS_CAP,
            };
            if confirmations_at(tip, output.height) < bound {
                Some(confirmations_at(tip, output.height))
            } else {
                before
            }
        }
    }
}

/// The mined outputs, in their order.
pub open spec fn mined(outputs: Seq<Output>) -> Seq<Output>
    decreases outputs.len(),
{
    if outputs.len() == 0 {
        Seq::empty()
    } else if outputs.last().height != 0 {
        mined(outputs.drop_last()).push(outputs.last())
    } else {
        mined(outputs.drop_last())
    }
}

/// What the outputs on the lock address amount to.
#[derive(Debug, PartialEq, Eq)]
pub struct Balance {
    /// Sum of the outputs that are short of the needed confirmations.
    pub pending: u64,
    /// Sum of the outputs with the needed confirmations.
    pub confirmed: u64,
    /// Least number of confirmations among the pending outputs, or zero.
    pub least_confirmations: u64,
    /// The mined outputs, in ascending order of their transaction ids.
    pub outputs: Vec<Output>,
}

/// Sorts the unspent outputs `outputs` into pending and confirmed ones
/// under the tip `tip`. An output at height zero is in the memory pool.
/// Sums that pass `u64` stay at its maximum. The mined outputs come back in
/// ascending order of their transaction ids, whatever order they came in.
pub fn classify_outputs(outputs: &Vec<Output>, tip: u64, needed: u64) -> (b: Balance)
    ensures
        b.pending == capped(pending_sum(outputs@, tip, needed)),
        b.confirmed == capped(confirmed_sum(outputs@, tip, needed)),
        b.least_confirmations == match least_pending(outputs@, tip, needed) {
            Some(n) => n,
            None => 0,
        },
        sorted_by_txid(b.outputs@),
        b.outputs@.to_multiset() == mined(outputs@).to_multiset(),
{
    let mut pending: u64 = 0;
    let mut confirmed: u64 = 0;
    let mut least: Option<u64> = None;
    let mut kept: Vec<Output> = Vec::new();
    let mut i: usize = 0;
    proof {
        assert(outputs@.subrange(0, 0) =~= Seq::<Output>::empty());
    }
    while i < outputs.len()
        invariant
            i <= outputs.len(),
            pending == capped(pending_sum(outputs@.subrange(0, i as int), tip, needed)),
            confirmed == capped(confirmed_sum(outputs@.subrange(0, i as int), tip, needed)),
            least == least_pending(outputs@.subrange(0, i as int), tip, needed),
            kept@ == mined(outputs@.subrange(0, i as int)),
            pending_sum(outputs@.subrange(0, i as int), tip, needed) >= 0,
            confirmed_sum(outputs@.subrange(0, i as int), tip, needed) >= 0,
        decreases outputs.len() - i,
    {
        let output = outputs[i];
        proof {
            let next = outputs@.subrange(0, i + 1);
            assert(next.drop_last() =~= outputs@.subrange(0, i as int));
            assert(next.last() == output);
        }
        if output.height == 0 {
            least = Some(0);
            pending = pending.saturating_add(output.value);
        } else {
            let conf = confirmations(tip, output.height);
            if conf >= needed {
                confirmed = confirmed.saturating_add(output.value);
            } else {
                let lower = match least {
                    Some(l) => conf < l,
                    None => true,
                };
                if lower {
                    least = Some(conf);
                }
                pending = pending.saturating_add(output.value);
            }
            kept.push(output);
        }
        i = i + 1;
    }
    proof {
        assert(outputs@.subrange(0, i as int) =~= outputs@);
    }
    let least_confirmations = match least {
        Some(n) => n,
        None => 0,
    };
    Balance { pending, confirmed, least_confirmations, outputs: sort_outputs(&kept) }
}

/// The sum of all outputs on the lock address and the least number of
/// confirmations among them.
pub fn lock_state(outputs: &Vec<Output>, tip: u64) -> (r: (u64, Option<u64>))
    ensures
        r.0 == capped(total_sum(outputs@)),
        r.1 == least_of_all(outputs@, tip),
{
    let mut amount: u64 = 0;
    let mut least: Option<u64> = None;
    let mut i: usize = 0;
    proof {
        assert(outputs@.subrange(0, 0) =~= Seq::<Output>::empty());
    }
    while i < outputs.len()
        invariant
            i <= outputs.len(),
            amount == capped(total_sum(outputs@.subrange(0, i as int))),
            total_sum(outputs@.subrange(0, i as int)) >= 0,
            least == least_of_all(outputs@.subrange(0, i as int), tip),
        decreases outputs.len() - i,
    {
        let output = outputs[i];
        proof {
            let next = outputs@.subrange(0, i + 1);
            assert(next.drop_last() =~= outputs@.subrange(0, i as int));
            assert(next.last() == output);
        }
        amount = amount.saturating_add(output.value);
        if output.height == 0 {
            least = Some(0);
        } else {
            let conf = confirmations(tip, output.height);
            let bound = match least {
                Some(l) => l,
                None => LEAST_CONFIRMATIONS_CAP,
            };
            if conf < bound {
                least = Some(conf);
            }
        }
        i = i + 1;
    }
    proof {
        assert(outputs@.subrange(0, i as int) =~= outputs@);
    }
    (amount, least)
}

/// The confirmations of a secondary-chain transaction: none where the node
/// does not know it, zero in the memory pool, else by its height.
pub open spec fn btc_confirmations_spec(tip: u64, found: Option<Option<u64>>) -> Option<u64> {
    match found {
        None => None,
        Some(None) => Some(0),
        Some(Some(height)) => Some(confirmations_at(tip, height)),
    }
}

/// The confirmations of a secondary-chain transaction.
pub fn btc_confirmations(tip: u64, found: Option<Option<u64>>) -> (r: Option<u64>)
    ensures
        r == btc_confirmations_spec(tip, found),
{
    match found {
        None => None,
        Some(None) => Some(0),
        Some(Some(height)) => Some(confirmations(tip, height)),
    }
}

/// The confirmations of a kernel that the node found at a height and a position.
pub open spec fn kernel_confirmations_spec(tip: u64, found: Option<(u64, u64)>) -> Option<u64> {
    match found {
        Some((height, _)) => Some(confirmations_at(tip, height)),
        None => None,
    }
}

/// The confirmations of a kernel that the node found at a height and a position.
pub fn kernel_confirmations(tip: u64, found: Option<(u64, u64)>) -> (r: Option<u64>)
    ensures
        r == kernel_confirmations_spec(tip, found),
{
    match found {
        Some((height, _)) => Some(confirmations(tip, height)),
        None => None,
    }
}

/// The greatest height among the outputs that the node found.
pub open spec fn max_height(found: Seq<(Commitment, u64, u64)>) -> Option<u64>
    decreases found.len(),
{
    if found.len() == 0 {
        None
    } else {
        match max_height(found.drop_last()) {
            Some(h) if h >= found.last().1 => Some(h),
            _ => Some(found.last().1),
        }
    }
}

/// The greatest height is the height of one of the outputs, and no
/// output lies higher; there is none where no output was found.
pub proof fn lemma_max_height_is_greatest(found: Seq<(Commitment, u64, u64)>)
    ensures
        match max_height(found) {
            Some(h) => (exists|i: int| 0 <= i < found.len() && #[trigger] found[i].1 == h)
                && forall|j: int| 0 <= j < found.len() ==> #[trigger] found[j].1 <= h,
            None => found.len() == 0,
        },
    decreases found.len(),
{
    if found.len() > 0 {
        let before = found.drop_last();
        lemma_max_height_is_greatest(before);
        let last = found.len() - 1;
        match max_height(before) {
            Some(h) if h >= found.last().1 => {
                let i = choose|i: int| 0 <= i < before.len() && #[trigger] before[i].1 == h;
                assert(found[i].1 == h);
                assert forall|j: int| 0 <= j < found.len() implies #[trigger] found[j].1 <= h by {
                    if j < last {
                        assert(before[j].1 <= h);
                    }
                }
            },
            _ => {
                let h = found.last().1;
                assert(found[last].1 == h);
                assert forall|j: int| 0 <= j < found.len() implies #[trigger] found[j].1 <= h by {
                    if j < last {
                        assert(before[j].1 <= h);
                    }
                }
            },
        }
    }
}

/// The confirmations that the found outputs give do not depend on the
/// order in which the node names them, nor on an output named twice: two
/// answers that hold the same outputs give the same confirmations. So the
/// list says no more than the map that a node answers with.
pub proof fn law_found_outputs_count_as_a_set(
    tip: u64,
    a: Seq<(Commitment, u64, u64)>,
    b: Seq<(Commitment, u64, u64)>,
)
    requires
        forall|i: int| 0 <= i < a.len() ==> b.contains(#[trigger] a[i]),
        forall|i: int| 0 <= i < b.len() ==> a.contains(#[trigger] b[i]),
    ensures
        outputs_confirmations_spec(tip, a) == outputs_confirmations_spec(tip, b),
{
    lemma_max_height_is_greatest(a);
    lemma_max_height_is_greatest(b);
    match (max_height(a), max_height(b)) {
        (Some(x), Some(y)) => {
            let i = choose|i: int| 0 <= i < a.len() && #[trigger] a[i].1 == x;
            assert(b.contains(a[i]));
            let k = choose|k: int| 0 <= k < b.len() && b[k] == a[i];
            assert(b[k].1 <= y);
            let j = choose|j: int| 0 <= j < b.len() && #[trigger] b[j].1 == y;
            assert(a.contains(b[j]));
            let m = choose|m: int| 0 <= m < a.len() && a[m] == b[j];
            assert(a[m].1 <= x);
        },
        (Some(x), None) => {
            let i = choose|i: int| 0 <= i < a.len() && #[trigger] a[i].1 == x;
            assert(b.contains(a[i]));
        },
        (None, Some(y)) => {
            let j = choose|j: int| 0 <= j < b.len() && #[trigger] b[j].1 == y;
            assert(a.contains(b[j]));
        },
        (None, None) => {},
    }
}

/// The confirmations of a transaction by the outputs that the node found of it.
pub open spec fn outputs_confirmations_spec(tip: u64, found: Seq<(Commitment, u64, u64)>) -> Option<
    u64,
> {
    match max_height(found) {
        Some(h) => Some(confirmations_at(tip, h)),
        None => None,
    }
}

/// The confirmations of a transaction by the outputs that the node found
/// of it: those of the highest output.
pub fn outputs_confirmations(tip: u64, found: &Vec<(Commitment, u64, u64)>) -> (r: Option<u64>)
    ensures
        r == outputs_confirmations_spec(tip, found@),
{
    let mut highest: Option<u64> = None;
    let mut i: usize = 0;
    proof {
        assert(found@.subrange(0, 0) =~= Seq::<(Commitment, u64, u64)>::empty());
    }
    while i < found.len()
        invariant
            i <= found.len(),
            highest == max_height(found@.subrange(0, i as int)),
        decreases found.len() - i,
    {
        let height = found[i].1;
        proof {
            let next = found@.subrange(0, i + 1);
            assert(next.drop_last() =~= found@.subrange(0, i as int));
            assert(next.last() == found@[i as int]);
        }
        let higher = match highest {
            Some(h) => h < height,
            None => true,
        };
        if higher {
            highest = Some(height);
        }
        i = i + 1;
    }
    proof {
        assert(found@.subrange(0, i as int) =~= found@);
    }
    match highest {
        Some(h) => Some(confirmations(tip, h)),
        None => None,
    }
}

/// Whether the outputs are in the order of their transactions' identifiers.
pub open spec fn sorted_by_txid(outputs: Seq<Output>) -> bool {
    forall|i: int, j: int|
        0 <= i < j < outputs.len() ==> !lex_less(
            #[trigger] outputs[j].out_point.txid.bytes@,
            #[trigger] outputs[i].out_point.txid.bytes@,
        )
}

/// The dictionary order is transitive.
pub proof fn lemma_lex_less_transitive(a: Seq<u8>, b: Seq<u8>, c: Seq<u8>)
    requires
        lex_less(a, b),
        lex_less(b, c),
    ensures
        lex_less(a, c),
{
    let k1 = choose|k: int|
        0 <= k < a.len() && k < b.len() && #[trigger] a[k] < b[k] && forall|j: int|
            0 <= j < k ==> a[j] == b[j];
    let k2 = choose|k: int|
        0 <= k < b.len() && k < c.len() && #[trigger] b[k] < c[k] && forall|j: int|
            0 <= j < k ==> b[j] == c[j];
    if k1 <= k2 {
        assert(a[k1] < c[k1]);
        assert(forall|j: int| 0 <= j < k1 ==> a[j] == c[j]);
    } else {
        assert(a[k2] < c[k2]);
        assert(forall|j: int| 0 <= j < k2 ==> a[j] == c[j]);
    }
}

/// The outputs in the order of their transactions' identifiers, so that
/// the same outputs always give the same transaction.
pub fn sort_outputs(outputs: &Vec<Output>) -> (sorted: Vec<Output>)
    ensures
        sorted_by_txid(sorted@),
        sorted@.to_multiset() == outputs@.to_multiset(),
        sorted@.len() == outputs@.len(),
{
    let mut sorted: Vec<Output> = Vec::new();
    let mut i: usize = 0;
    proof {
        assert(outputs@.subrange(0, 0) =~= Seq::<Output>::empty());
    }
    while i < outputs.len()
        invariant
            i <= outputs.len(),
            sorted@.len() == i,
            sorted_by_txid(sorted@),
            sorted@.to_multiset() == outputs@.subrange(0, i as int).to_multiset(),
        decreases outputs.len() - i,
    {
        let output = outputs[i];
        let mut p: usize = 0;
        while p < sorted.len() && !output.out_point.txid.less(&sorted[p].out_point.txid)
            invariant
                p <= sorted.len(),
                forall|j: int|
                    0 <= j < p ==> !lex_less(
                        output.out_point.txid.bytes@,
                        #[trigger] sorted@[j].out_point.txid.bytes@,
                    ),
            decreases sorted.len() - p,
        {
            p = p + 1;
        }
        let ghost before = sorted@;
        sorted.insert(p, output);
        proof {
            to_multiset_insert(before, p as int, output);
            to_multiset_build(outputs@.subrange(0, i as int), output);
            assert(outputs@.subrange(0, i + 1) =~= outputs@.subrange(0, i as int).push(output));
            assert forall|a: int, b: int| 0 <= a < b < sorted@.len() implies !lex_less(
                #[trigger] sorted@[b].out_point.txid.bytes@,
                #[trigger] sorted@[a].out_point.txid.bytes@,
            ) by {
                if b == p {
                    assert(sorted@[a] == before[a]);
                } else if a == p {
                    assert(sorted@[b] == before[b - 1]);
                    if lex_less(sorted@[b].out_point.txid.bytes@, output.out_point.txid.bytes@) {
                        assert(lex_less(
                            output.out_point.txid.bytes@,
                            before[p as int].out_point.txid.bytes@,
                        ));
                        lemma_lex_less_transitive(
                            before[b - 1].out_point.txid.bytes@,
                            output.out_point.txid.bytes@,
                            before[p as int].out_point.txid.bytes@,
                        );
                    }
                } else {
                    let x = if a < p { a } else { a - 1 };
                    let y = if b < p { b } else { b - 1 };
                    assert(sorted@[a] == before[x]);
                    assert(sorted@[b] == before[y]);
                }
            }
        }
        i = i + 1;
    }
    proof {
        assert(outputs@.subrange(0, i as int) =~= outputs@);
    }
    sorted
}

} // verus!
