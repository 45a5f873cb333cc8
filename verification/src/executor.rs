//! The order coordinator: the book of orders that the gateway has accepted
//! and that are neither filled nor cancelled yet.

use vstd::prelude::*;
use crate::types::Order;

verus! {

/// What cancelling an order did.
#[derive(Debug, Clone, Copy, PartialEq, Eq, Structural)]
pub enum CancelOutcome {
    /// The order was pending and has been removed.
    Removed,
    /// No pending order has this id; nothing was changed.
    NotFound,
}

/// Whether some order of `orders` has the id `id`.
pub open spec fn holds_id(orders: Seq<Order>, id: Seq<char>) -> bool {
    exists|i: int| 0 <= i < orders.len() && (#[trigger] orders[i]).id@ == id
}

/// The test that an order has another id than `id`.
pub open spec fn other_than(id: Seq<char>) -> spec_fn(Order) -> bool {
    |o: Order| o.id@ != id
}

/// `orders` without those that have the id `id`, the rest in their order.
pub open spec fn without_id(orders: Seq<Order>, id: Seq<char>) -> Seq<Order> {
    orders.filter(other_than(id))
}

/// Removing an id leaves no order with that id.
pub proof fn lemma_without_id_absent(orders: Seq<Order>, id: Seq<char>)
    ensures
        !holds_id(without_id(orders, id), id),
{
    let rest = without_id(orders, id);
    assert forall|i: int| 0 <= i < rest.len() implies (#[trigger] rest[i]).id@ != id by {
        orders.lemma_filter_pred(other_than(id), i);
    }
}

/// Removing an id that no order has changes nothing.
pub proof fn lemma_without_id_unchanged(orders: Seq<Order>, id: Seq<char>)
    requires
        !holds_id(orders, id),
    ensures
        without_id(orders, id) == orders,
    decreases orders.len(),
{
    reveal(Seq::filter);
    if orders.len() > 0 {
        let front = orders.drop_last();
        assert forall|i: int| 0 <= i < front.len() implies (#[trigger] front[i]).id@ != id by {
            assert(orders[i].id@ != id);
        }
        lemma_without_id_unchanged(front, id);
        assert(orders.last() == orders[orders.len() - 1]);
        assert(orders.last().id@ != id);
        assert(front.push(orders.last()) =~= orders);
    }
}

/// Removing an id from a book that holds it makes the book shorter.
pub proof fn lemma_without_id_shorter(orders: Seq<Order>, id: Seq<char>)
    requires
        holds_id(orders, id),
    ensures
        without_id(orders, id).len() < orders.len(),
    decreases orders.len(),
{
    reveal(Seq::filter);
    let front = orders.drop_last();
    if orders.last().id@ == id {
        front.lemma_filter_len(other_than(id));
    } else {
        let i = choose|i: int| 0 <= i < orders.len() && (#[trigger] orders[i]).id@ == id;
        assert(front[i].id@ == id);
        lemma_without_id_shorter(front, id);
    }
}

/// Cancelling is idempotent: a second removal of the same id changes nothing.
pub proof fn lemma_cancel_twice(orders: Seq<Order>, id: Seq<char>)
    ensures
        without_id(without_id(orders, id), id) == without_id(orders, id),
{
    lemma_without_id_absent(orders, id);
    lemma_without_id_unchanged(without_id(orders, id), id);
}

/// Keeps the pending orders, oldest first.
pub struct OrderExecutor {
    pending_orders: Vec<Order>,
}

impl View for OrderExecutor {
    type V = Seq<Order>;

    /// The pending orders, in the order in which they were accepted.
    closed spec fn view(&self) -> Seq<Order> {
        self.pending_orders@
    }
}

impl OrderExecutor {
    /// A coordinator with no pending order.
    pub fn new() -> (r: Self)
        ensures
            r@ == Seq::<Order>::empty(),
    {
        Self { pending_orders: Vec::new() }
    }

    /// Books the gateway's answer to `order`. Where the gateway accepted it,
    /// the order becomes pending and its id is returned. Where the gateway
    /// failed, its reason is returned and the book is left as it was.
    pub fn submit_order(&mut self, order: Order, reply: Result<(), String>) -> (r: Result<
        String,
        String,
    >)
        ensures
            match reply {
                Ok(_) => r.is_ok() && r.unwrap()@ == order.id@ && final(self)@ == old(self)@.push(
                    order,
                ),
                Err(reason) => r == Err::<String, String>(reason) && final(self)@ == old(self)@,
            },
    {
        match reply {
            Ok(_) => {
                let id = order.id.clone();
                self.pending_orders.push(order);
                Ok(id)
            },
            Err(reason) => Err(reason),
        }
    }

    /// Removes every pending order with the id `order_id`. Cancelling an id
    /// that is not pending is no error and changes nothing.
    pub fn cancel_order(&mut self, order_id: &str) -> (outcome: CancelOutcome)
        ensures
            final(self)@ == without_id(old(self)@, order_id@),
            outcome == (if holds_id(old(self)@, order_id@) {
                CancelOutcome::Removed
            } else {
                CancelOutcome::NotFound
            }),
            outcome == CancelOutcome::NotFound ==> final(self)@ == old(self)@,
            outcome == CancelOutcome::Removed ==> final(self)@.len() < old(self)@.len(),
            !holds_id(final(self)@, order_id@),
    {
        let key = order_id.to_owned();
        let mut kept: Vec<Order> = Vec::new();
        let mut found = false;
        let mut i: usize = 0;
        assert(self.pending_orders@.subrange(0, 0) =~= Seq::<Order>::empty());
        assert(without_id(Seq::<Order>::empty(), order_id@) =~= Seq::<Order>::empty()) by {
            reveal(Seq::filter);
        }
        while i < self.pending_orders.len()
            invariant
                i <= self.pending_orders@.len(),
                key@ == order_id@,
                kept@ == without_id(self.pending_orders@.subrange(0, i as int), order_id@),
                found == holds_id(self.pending_orders@.subrange(0, i as int), order_id@),
            decreases self.pending_orders@.len() - i,
        {
            let order = &self.pending_orders[i];
            proof {
                let upto = self.pending_orders@.subrange(0, i + 1);
                let before = self.pending_orders@.subrange(0, i as int);
                assert(upto.drop_last() =~= before);
                assert(upto.last() == *order);
                reveal(Seq::filter);
                if holds_id(before, order_id@) {
                    let k = choose|k: int| 0 <= k < before.len() && (#[trigger] before[k]).id@
                        == order_id@;
                    assert(upto[k].id@ == order_id@);
                }
                if holds_id(upto, order_id@) && order.id@ != order_id@ {
                    let k = choose|k: int| 0 <= k < upto.len() && (#[trigger] upto[k]).id@
                        == order_id@;
                    assert(before[k].id@ == order_id@);
                }
                if order.id@ == order_id@ {
                    assert(upto[i as int].id@ == order_id@);
                }
            }
            if order.id == key {
                found = true;
            } else {
                kept.push(order.clone());
            }
            i = i + 1;
        }
        proof {
            assert(self.pending_orders@.subrange(0, i as int) =~= self.pending_orders@);
            lemma_without_id_absent(self.pending_orders@, order_id@);
            if found {
                lemma_without_id_shorter(self.pending_orders@, order_id@);
            } else {
                lemma_without_id_unchanged(self.pending_orders@, order_id@);
            }
        }
        self.pending_orders = kept;
        if found {
            CancelOutcome::Removed
        } else {
            CancelOutcome::NotFound
        }
    }

    /// Whether an order with the id `order_id` is pending.
    pub fn is_pending(&self, order_id: &str) -> (r: bool)
        ensures
            r == holds_id(self@, order_id@),
    {
        let key = order_id.to_owned();
        let mut i: usize = 0;
        while i < self.pending_orders.len()
            invariant
                i <= self.pending_orders@.len(),
                key@ == order_id@,
                forall|j: int| 0 <= j < i ==> (#[trigger] self.pending_orders@[j]).id@ != order_id@,
            decreases self.pending_orders@.len() - i,
        {
            if self.pending_orders[i].id == key {
                return true;
            }
            i = i + 1;
        }
        false
    }

    /// Number of pending orders.
    pub fn pending_count(&self) -> (n: usize)
        ensures
            n == self@.len(),
    {
        self.pending_orders.len()
    }

    /// A copy of the pending orders, oldest first.
    pub fn pending_orders(&self) -> (r: Vec<Order>)
        ensures
            r@ == self@,
    {
        let mut copy: Vec<Order> = Vec::new();
        let mut i: usize = 0;
        while i < self.pending_orders.len()
            invariant
                i <= self.pending_orders@.len(),
                copy@ == self.pending_orders@.subrange(0, i as int),
            decreases self.pending_orders@.len() - i,
        {
            copy.push(self.pending_orders[i].clone());
            i = i + 1;
            assert(copy@ =~= self.pending_orders@.subrange(0, i as int));
        }
        assert(copy@ =~= self.pending_orders@);
        copy
    }
}

} // verus!
