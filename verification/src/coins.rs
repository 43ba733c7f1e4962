//! The coin discipline shared by every game and shop operation.
//!
//! Each mutating operation either credits the balance or debits it after a
//! pre-check: a debit of more than the current balance is refused and the
//! balance is left untouched. This module states that discipline once,
//! over sequences of operations, and proves the safety laws the registry
//! operations instantiate.

use vstd::prelude::*;

verus! {

/// One balance movement: a credit always lands; a debit is applied only
/// when the balance covers it, and is otherwise refused without effect.
pub enum CoinOp {
    Credit(u32),
    Debit(u32),
}

pub open spec fn apply_coin_op(balance: int, op: CoinOp) -> int {
    match op {
        CoinOp::Credit(x) => balance + x,
        CoinOp::Debit(x) => if x <= balance {
            balance - x
        } else {
            balance
        },
    }
}

/// The balance after a sequence of operations, applied in order.
pub open spec fn coins_after(balance: int, ops: Seq<CoinOp>) -> int
    decreases ops.len(),
{
    if ops.len() == 0 {
        balance
    } else {
        apply_coin_op(coins_after(balance, ops.drop_last()), ops.last())
    }
}

/// However many game and purchase operations run against one account, in
/// whatever order, the balance never goes negative: an operation asking
/// for more than the balance is refused and changes nothing.
pub proof fn lemma_balance_never_negative(balance: int, ops: Seq<CoinOp>)
    requires
        balance >= 0,
    ensures
        coins_after(balance, ops) >= 0,
    decreases ops.len(),
{
    if ops.len() > 0 {
        lemma_balance_never_negative(balance, ops.drop_last());
    }
}

/// Every debit in the sequence is covered by the balance at its turn.
pub open spec fn all_debits_covered(balance: int, ops: Seq<CoinOp>) -> bool
    decreases ops.len(),
{
    if ops.len() == 0 {
        true
    } else {
        all_debits_covered(balance, ops.drop_last()) && match ops.last() {
            CoinOp::Debit(x) => x <= coins_after(balance, ops.drop_last()),
            CoinOp::Credit(x) => true,
        }
    }
}

/// The signed worth of one operation, once it is known to land.
pub open spec fn op_delta(op: CoinOp) -> int {
    match op {
        CoinOp::Credit(x) => x as int,
        CoinOp::Debit(x) => -(x as int),
    }
}

/// The sum of the operations' worths.
pub open spec fn net_change(ops: Seq<CoinOp>) -> int
    decreases ops.len(),
{
    if ops.len() == 0 {
        0
    } else {
        net_change(ops.drop_last()) + op_delta(ops.last())
    }
}

/// When every debit is covered, a serial run lands exactly the sum of the
/// operations' effects: no update is lost.
pub proof fn lemma_serial_sum(balance: int, ops: Seq<CoinOp>)
    requires
        all_debits_covered(balance, ops),
    ensures
        coins_after(balance, ops) == balance + net_change(ops),
    decreases ops.len(),
{
    if ops.len() > 0 {
        lemma_serial_sum(balance, ops.drop_last());
    }
}

proof fn lemma_net_change_remove(ops: Seq<CoinOp>, i: int)
    requires
        0 <= i < ops.len(),
    ensures
        net_change(ops.remove(i)) == net_change(ops) - op_delta(ops[i]),
    decreases ops.len(),
{
    if i == ops.len() - 1 {
        assert(ops.remove(i) =~= ops.drop_last());
    } else {
        assert(ops.remove(i).drop_last() =~= ops.drop_last().remove(i));
        assert(ops.remove(i).last() == ops.last());
        lemma_net_change_remove(ops.drop_last(), i);
    }
}

/// The sum of the operations' worths does not depend on their order.
pub proof fn lemma_net_change_permutation(ops1: Seq<CoinOp>, ops2: Seq<CoinOp>)
    requires
        ops1.to_multiset() == ops2.to_multiset(),
    ensures
        net_change(ops1) == net_change(ops2),
    decreases ops1.len(),
{
    broadcast use vstd::seq_lib::group_to_multiset_ensures;

    if ops1.len() == 0 {
        assert(ops1.to_multiset().len() == ops1.len());
        assert(ops2.to_multiset().len() == ops2.len());
        assert(ops2.len() == 0);
    } else {
        let x = ops1.last();
        assert(ops1[ops1.len() - 1] == x);
        assert(ops1.contains(x));
        assert(ops2.to_multiset().count(x) > 0);
        assert(ops2.contains(x));
        let j = choose|j: int| 0 <= j < ops2.len() && ops2[j] == x;
        let ops2r = ops2.remove(j);
        assert(ops1.remove(ops1.len() - 1) =~= ops1.drop_last());
        assert(ops1.drop_last().to_multiset() == ops1.to_multiset().remove(x));
        assert(ops2r.to_multiset() == ops2.to_multiset().remove(x));
        lemma_net_change_permutation(ops1.drop_last(), ops2r);
        lemma_net_change_remove(ops2, j);
    }
}

/// Serializability of the mutating operations: run the same collection of
/// operations in any two orders; as long as every debit is covered in
/// both, the final balance is the same — the balance of some serial
/// ordering is the balance of every serial ordering.
pub proof fn lemma_order_independent(balance: int, ops1: Seq<CoinOp>, ops2: Seq<CoinOp>)
    requires
        ops1.to_multiset() == ops2.to_multiset(),
        all_debits_covered(balance, ops1),
        all_debits_covered(balance, ops2),
    ensures
        coins_after(balance, ops1) == coins_after(balance, ops2),
{
    lemma_serial_sum(balance, ops1);
    lemma_serial_sum(balance, ops2);
    lemma_net_change_permutation(ops1, ops2);
}

} // verus!
