use vstd::prelude::*;
use serum_dex::critbit::Slab;
use serum_dex::critbit::SlabView;
use crate::processor::Processor;

verus! {

/// A serum order-book slab (a critbit tree laid over account data).
#[verifier::external_type_specification]
#[verifier::external_body]
pub struct ExSlab(Slab);

/// The fields of a slab leaf (a resting order) that the bot reads.
#[derive(Debug, Clone, Copy, PartialEq, Eq)]
pub struct SlabLeaf {
    /// The order id: price in the upper 64 bits, sequence number below.
    pub key: u128,
    pub owner: [u64; 4],
    pub quantity: u64,
    pub client_order_id: u64,
}

/// The slab's node slots in index order: a leaf for each slot that holds one,
/// `None` for free slots and inner nodes.
pub uninterp spec fn slab_slots(slab: &Slab) -> Seq<Option<SlabLeaf>>;

/// Calls `SlabView::capacity` of serum_dex: the number of node slots.
#[verifier::external_body]
pub(crate) fn slab_capacity(slab: &Slab) -> (r: u64)
    ensures
        r == slab_slots(slab).len(),
{
    slab.capacity()
}

/// Calls `SlabView::get` and `AnyNode::as_leaf` of serum_dex for one slot and
/// copies out the leaf's key, owner, quantity and client order id; slots past
/// the end hold nothing.
#[verifier::external_body]
pub(crate) fn slab_leaf(slab: &Slab, index: u32) -> (r: Option<SlabLeaf>)
    ensures
        r == (if (index as int) < slab_slots(slab).len() {
            slab_slots(slab)[index as int]
        } else {
            None
        }),
{
    match slab.get(index) {
        Some(node) => match node.as_leaf() {
            Some(leaf) => Some(
                SlabLeaf {
                    key: leaf.order_id(),
                    owner: leaf.owner(),
                    quantity: leaf.quantity(),
                    client_order_id: leaf.client_order_id(),
                },
            ),
            None => None,
        },
        None => None,
    }
}

/// The side of the book an order rests on.
#[derive(Debug, Clone, Copy, PartialEq, Eq)]
pub enum Side {
    Bid,
    Ask,
}

/// A resting order as the bot sees it.
#[derive(Debug, Clone, Copy, PartialEq, Eq)]
pub struct Order {
    pub side: Side,
    pub price: u64,
    pub size: u64,
    pub client_id: u64,
    pub owner: [u64; 4],
    pub order_id: u128,
}

/// A leaf's price: the upper 64 bits of its key.
pub open spec fn leaf_price(leaf: SlabLeaf) -> u64 {
    (leaf.key >> 64u128) as u64
}

pub open spec fn leaf_order(side: Side, leaf: SlabLeaf) -> Order {
    Order {
        side,
        price: leaf_price(leaf),
        size: leaf.quantity,
        client_id: leaf.client_order_id,
        owner: leaf.owner,
        order_id: leaf.key,
    }
}

/// The orders of all leaves, in slot order.
pub open spec fn orders_in(side: Side, slots: Seq<Option<SlabLeaf>>) -> Seq<Order>
    decreases slots.len(),
{
    if slots.len() == 0 {
        Seq::empty()
    } else {
        orders_in(side, slots.drop_last()) + match slots.last() {
            Some(leaf) => seq![leaf_order(side, leaf)],
            None => Seq::empty(),
        }
    }
}

/// The orders that belong to `owner`, in their order.
pub open spec fn owned_by(orders: Seq<Order>, owner: [u64; 4]) -> Seq<Order>
    decreases orders.len(),
{
    if orders.len() == 0 {
        Seq::empty()
    } else {
        owned_by(orders.drop_last(), owner) + if orders.last().owner@ == owner@ {
            seq![orders.last()]
        } else {
            Seq::empty()
        }
    }
}

/// A book that can be read without a panic: slot indices fit in `u32`, and
/// every leaf that is read has a nonzero price (serum keeps prices in a
/// `NonZeroU64`, and reading a zero price panics). With `owner` given, only
/// that owner's leaves are read.
pub open spec fn book_readable(slots: Seq<Option<SlabLeaf>>, owner: Option<[u64; 4]>) -> bool {
    &&& slots.len() <= 0x1_0000_0000
    &&& forall|i: int|
        0 <= i < slots.len() ==> (#[trigger] slots[i] matches Some(leaf) ==> (match owner {
            Some(o) => leaf.owner@ == o@,
            None => true,
        }) ==> leaf_price(leaf) != 0)
}

/// The orders `parse_order_book` (owner `None`) or `parse_order_book_for_owner`
/// read from a slab, or `None` where reading panics.
pub open spec fn read_book(side: Side, slots: Seq<Option<SlabLeaf>>, owner: Option<[u64; 4]>) -> Option<Seq<Order>> {
    if book_readable(slots, owner) {
        match owner {
            Some(o) => Some(owned_by(orders_in(side, slots), o)),
            None => Some(orders_in(side, slots)),
        }
    } else {
        None
    }
}

pub fn owners_equal(a: &[u64; 4], b: &[u64; 4]) -> (r: bool)
    ensures
        r == (a@ == b@),
{
    let r = a[0] == b[0] && a[1] == b[1] && a[2] == b[2] && a[3] == b[3];
    proof {
        if r {
            assert(a@ =~= b@);
        }
    }
    r
}

pub proof fn lemma_owned_by_push(orders: Seq<Order>, o: Order, owner: [u64; 4])
    ensures
        owned_by(orders.push(o), owner) == owned_by(orders, owner) + if o.owner@ == owner@ {
            seq![o]
        } else {
            Seq::<Order>::empty()
        },
{
    assert(orders.push(o).drop_last() =~= orders);
}

/// Every order that `owned_by` keeps belongs to the owner.
pub proof fn lemma_owned_by_owner(orders: Seq<Order>, owner: [u64; 4])
    ensures
        forall|i: int|
            0 <= i < owned_by(orders, owner).len() ==> (#[trigger] owned_by(orders, owner)[i]).owner@
                == owner@,
    decreases orders.len(),
{
    if orders.len() > 0 {
        lemma_owned_by_owner(orders.drop_last(), owner);
        let prev = owned_by(orders.drop_last(), owner);
        assert forall|i: int| 0 <= i < owned_by(orders, owner).len() implies (#[trigger] owned_by(
            orders,
            owner,
        )[i]).owner@ == owner@ by {
            if i < prev.len() {
                assert(owned_by(orders, owner)[i] == prev[i]);
            }
        }
    }
}

/// Reads the orders of a slab, all of them or one owner's; `None` where
/// reading aborts the transaction.
pub fn read_orders(side: Side, slab: &Slab, owner: Option<[u64; 4]>) -> (r: Option<Vec<Order>>)
    ensures
        r matches Some(v) ==> read_book(side, slab_slots(slab), owner) == Some(v@),
        r is None ==> read_book(side, slab_slots(slab), owner) is None,
{
    let ghost slots = slab_slots(slab);
    let capacity = slab_capacity(slab);
    if capacity > 0x1_0000_0000 {
        return None;
    }
    let mut orders: Vec<Order> = Vec::new();
    let mut i: u64 = 0;
    while i < capacity
        invariant
            i <= capacity,
            capacity == slots.len(),
            slots == slab_slots(slab),
            capacity <= 0x1_0000_0000,
            book_readable(slots.subrange(0, i as int), owner),
            orders@ == match owner {
                Some(o) => owned_by(orders_in(side, slots.subrange(0, i as int)), o),
                None => orders_in(side, slots.subrange(0, i as int)),
            },
        decreases capacity - i,
    {
        let ghost prefix = slots.subrange(0, i as int);
        let ghost next = slots.subrange(0, i + 1);
        assert(next.drop_last() =~= prefix);
        let slot = slab_leaf(slab, i as u32);
        assert(slot == slots[i as int]);
        match slot {
            Some(leaf) => {
                let wanted = match owner {
                    Some(o) => owners_equal(&leaf.owner, &o),
                    None => true,
                };
                if wanted {
                    let key = leaf.key;
                    assert(key >> 64u128 <= u64::MAX) by (bit_vector);
                    let price = (key >> 64u128) as u64;
                    if price == 0 {
                        proof {
                            assert(!book_readable(slots, owner)) by {
                                assert(slots[i as int] == Some(leaf));
                            }
                        }
                        return None;
                    }
                    let order = Order {
                        side,
                        price,
                        size: leaf.quantity,
                        client_id: leaf.client_order_id,
                        owner: leaf.owner,
                        order_id: leaf.key,
                    };
                    proof {
                        assert(order == leaf_order(side, leaf));
                        assert(orders_in(side, next) =~= orders_in(side, prefix).push(order));
                        if let Some(o) = owner {
                            lemma_owned_by_push(orders_in(side, prefix), order, o);
                        }
                    }
                    orders.push(order);
                } else {
                    proof {
                        assert(orders_in(side, next) =~= orders_in(side, prefix).push(
                            leaf_order(side, leaf),
                        ));
                        if let Some(o) = owner {
                            lemma_owned_by_push(orders_in(side, prefix), leaf_order(side, leaf), o);
                        }
                    }
                }
            },
            None => {
                assert(orders_in(side, next) =~= orders_in(side, prefix));
            },
        }
        proof {
            assert forall|j: int| 0 <= j < next.len() implies (#[trigger] next[j] matches Some(
                leaf,
            ) ==> (match owner {
                Some(o) => leaf.owner@ == o@,
                None => true,
            }) ==> leaf_price(leaf) != 0) by {
                if j < i {
                    assert(next[j] == prefix[j]);
                }
            }
        }
        i = i + 1;
    }
    assert(slots.subrange(0, i as int) =~= slots);
    Some(orders)
}

/// The highest price among the orders (the first order once they are sorted
/// from the highest price down); 0 for no orders.
pub open spec fn max_price(orders: Seq<Order>) -> u64
    decreases orders.len(),
{
    if orders.len() == 0 {
        0
    } else {
        let m = max_price(orders.drop_last());
        if orders.len() == 1 || orders.last().price > m {
            orders.last().price
        } else {
            m
        }
    }
}

/// The lowest price among the orders (the first order once they are sorted
/// from the lowest price up); `u64::MAX` for no orders.
pub open spec fn min_price(orders: Seq<Order>) -> u64
    decreases orders.len(),
{
    if orders.len() == 0 {
        u64::MAX
    } else {
        let m = min_price(orders.drop_last());
        if orders.len() == 1 || orders.last().price < m {
            orders.last().price
        } else {
            m
        }
    }
}

/// Some order's price or client id lies within `[low, high]`.
pub open spec fn price_taken(orders: Seq<Order>, low: u64, high: u64) -> bool {
    exists|i: int|
        0 <= i < orders.len() && ((low <= (#[trigger] orders[i]).price && orders[i].price <= high)
            || (low <= orders[i].client_id && orders[i].client_id <= high))
}

/// The highest price of the orders.
pub fn highest_price(orders: &Vec<Order>) -> (r: u64)
    ensures
        r == max_price(orders@),
{
    let mut best: u64 = 0;
    let mut i: usize = 0;
    while i < orders.len()
        invariant
            i <= orders@.len(),
            best == max_price(orders@.subrange(0, i as int)),
        decreases orders@.len() - i,
    {
        assert(orders@.subrange(0, i + 1).drop_last() =~= orders@.subrange(0, i as int));
        let p = orders[i].price;
        if i == 0 || p > best {
            best = p;
        }
        i = i + 1;
    }
    assert(orders@.subrange(0, i as int) =~= orders@);
    best
}

/// The lowest price of the orders.
pub fn lowest_price(orders: &Vec<Order>) -> (r: u64)
    ensures
        r == min_price(orders@),
{
    let mut best: u64 = u64::MAX;
    let mut i: usize = 0;
    while i < orders.len()
        invariant
            i <= orders@.len(),
            best == min_price(orders@.subrange(0, i as int)),
        decreases orders@.len() - i,
    {
        assert(orders@.subrange(0, i + 1).drop_last() =~= orders@.subrange(0, i as int));
        let p = orders[i].price;
        if i == 0 || p < best {
            best = p;
        }
        i = i + 1;
    }
    assert(orders@.subrange(0, i as int) =~= orders@);
    best
}

/// The orders of `owner`, in their order.
pub fn orders_owned_by(orders: &Vec<Order>, owner: &[u64; 4]) -> (r: Vec<Order>)
    ensures
        r@ == owned_by(orders@, *owner),
{
    let mut mine: Vec<Order> = Vec::new();
    let mut i: usize = 0;
    while i < orders.len()
        invariant
            i <= orders@.len(),
            mine@ == owned_by(orders@.subrange(0, i as int), *owner),
        decreases orders@.len() - i,
    {
        let ghost prefix = orders@.subrange(0, i as int);
        assert(orders@.subrange(0, i + 1) =~= prefix.push(orders@[i as int]));
        proof {
            lemma_owned_by_push(prefix, orders@[i as int], *owner);
        }
        let o = orders[i];
        if owners_equal(&o.owner, owner) {
            mine.push(o);
        }
        i = i + 1;
    }
    assert(orders@.subrange(0, i as int) =~= orders@);
    mine
}

/// Whether some order's price or client id lies within `[low, high]`.
pub fn any_price_taken(orders: &Vec<Order>, low: u64, high: u64) -> (r: bool)
    ensures
        r == price_taken(orders@, low, high),
{
    let mut i: usize = 0;
    while i < orders.len()
        invariant
            i <= orders@.len(),
            forall|j: int|
                0 <= j < i ==> !((low <= (#[trigger] orders@[j]).price && orders@[j].price <= high)
                    || (low <= orders@[j].client_id && orders@[j].client_id <= high)),
        decreases orders@.len() - i,
    {
        let o = orders[i];
        if (low <= o.price && o.price <= high) || (low <= o.client_id && o.client_id <= high) {
            assert(orders@[i as int] == o);
            return true;
        }
        i = i + 1;
    }
    false
}

impl Processor {
    /// Collects every order resting in a slab, in slot order.
    pub fn parse_order_book(side: Side, slab: &Slab) -> (orders: Vec<Order>)
        requires
            book_readable(slab_slots(slab), None),
        ensures
            orders@ == orders_in(side, slab_slots(slab)),
    {
        match read_orders(side, slab, None) {
            Some(orders) => orders,
            None => {
                proof {
                    assert(false);
                }
                Vec::new()
            },
        }
    }

    /// Collects the orders of one owner resting in a slab, in slot order.
    pub fn parse_order_book_for_owner(side: Side, slab: &Slab, owner: &[u64; 4]) -> (orders: Vec<Order>)
        requires
            book_readable(slab_slots(slab), Some(*owner)),
        ensures
            orders@ == owned_by(orders_in(side, slab_slots(slab)), *owner),
    {
        match read_orders(side, slab, Some(*owner)) {
            Some(orders) => orders,
            None => {
                proof {
                    assert(false);
                }
                Vec::new()
            },
        }
    }
}

} // verus!
