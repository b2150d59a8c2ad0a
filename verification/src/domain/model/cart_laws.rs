//! Laws of the cart, stated over what a cart holds and proved once for all
//! carts.

use vstd::prelude::*;
use crate::domain::model::cart::merged_quantity;
use crate::domain::model::cart::CartView;
use crate::domain::model::quantities::lemma_total_insert;
use crate::domain::model::quantities::lemma_total_split;
use crate::domain::model::quantities::ItemKey;
use crate::domain::model::timestamp::Timestamp;

verus! {

/// The cart after a run of additions of one item, each with its quantity and
/// the time at which it is made.
pub open spec fn add_all(cart: CartView, key: ItemKey, additions: Seq<(u32, Timestamp)>) -> CartView
    decreases additions.len(),
{
    if additions.len() == 0 {
        cart
    } else {
        add_all(cart, key, additions.drop_last()).add_item(
            key,
            additions.last().0,
            additions.last().1,
        )
    }
}

/// The sum of the quantities of a run of additions.
pub open spec fn sum_added(additions: Seq<(u32, Timestamp)>) -> nat
    decreases additions.len(),
{
    if additions.len() == 0 {
        0
    } else {
        sum_added(additions.drop_last()) + additions.last().0 as nat
    }
}

/// Every operation keeps the invariants of a cart.
pub proof fn lemma_operations_keep_invariants(
    cart: CartView,
    key: ItemKey,
    quantity: u32,
    now: Timestamp,
)
    requires
        cart.wf(),
    ensures
        cart.add_item(key, quantity, now).wf(),
        cart.remove_item(key, now).0.wf(),
        cart.update_quantity(key, quantity, now).0.wf(),
        cart.clear(now).wf(),
{
}

/// What an operation leaves alone: all of `after` but the items and the time
/// of the last update is as it is in `before`.
pub open spec fn same_but_items_and_update(before: CartView, after: CartView) -> bool {
    after == (CartView { items: after.items, updated_at: after.updated_at, ..before })
}

/// No operation touches the time of creation, the identity, the owner, the
/// prices, the status or the expiry.
pub proof fn lemma_operations_keep_the_rest(
    cart: CartView,
    key: ItemKey,
    quantity: u32,
    now: Timestamp,
)
    ensures
        same_but_items_and_update(cart, cart.add_item(key, quantity, now)),
        same_but_items_and_update(cart, cart.remove_item(key, now).0),
        same_but_items_and_update(cart, cart.update_quantity(key, quantity, now).0),
        same_but_items_and_update(cart, cart.clear(now)),
{
}

/// An operation that changes the cart stores the reading of the clock as the
/// time of the last update, whether the reading is before or after the last
/// update, as long as it is not before the creation. Adding and clearing
/// always change the cart; taking out and setting a quantity change it where
/// they say so, and leave the time of the last update alone where they do
/// not.
pub proof fn lemma_operations_store_the_reading(
    cart: CartView,
    key: ItemKey,
    quantity: u32,
    now: Timestamp,
)
    requires
        cart.created_at.at_or_before(now),
    ensures
        cart.add_item(key, quantity, now).updated_at == now,
        cart.clear(now).updated_at == now,
        cart.remove_item(key, now).1 ==> cart.remove_item(key, now).0.updated_at == now,
        !cart.remove_item(key, now).1 ==> cart.remove_item(key, now).0.updated_at
            == cart.updated_at,
        cart.update_quantity(key, quantity, now).1 ==> cart.update_quantity(
            key,
            quantity,
            now,
        ).0.updated_at == now,
        !cart.update_quantity(key, quantity, now).1 ==> cart.update_quantity(
            key,
            quantity,
            now,
        ).0.updated_at == cart.updated_at,
{
}

/// A reading before the creation is not stored: an operation that changes
/// the cart then leaves it with the time of creation as the time of the last
/// update.
pub proof fn lemma_reading_before_creation(
    cart: CartView,
    key: ItemKey,
    quantity: u32,
    now: Timestamp,
)
    requires
        !cart.created_at.at_or_before(now),
    ensures
        cart.add_item(key, quantity, now).updated_at == cart.created_at,
        cart.clear(now).updated_at == cart.created_at,
        cart.remove_item(key, now).1 ==> cart.remove_item(key, now).0.updated_at
            == cart.created_at,
        cart.update_quantity(key, quantity, now).1 ==> cart.update_quantity(
            key,
            quantity,
            now,
        ).0.updated_at == cart.created_at,
{
}

/// With a reading that is not before the last update, no operation moves the
/// time of the last update back.
pub proof fn lemma_operations_keep_time_order(
    cart: CartView,
    key: ItemKey,
    quantity: u32,
    now: Timestamp,
)
    requires
        cart.wf(),
        cart.updated_at.at_or_before(now),
    ensures
        cart.updated_at.at_or_before(cart.add_item(key, quantity, now).updated_at),
        cart.updated_at.at_or_before(cart.remove_item(key, now).0.updated_at),
        cart.updated_at.at_or_before(cart.update_quantity(key, quantity, now).0.updated_at),
        cart.updated_at.at_or_before(cart.clear(now).updated_at),
{
}

/// The readings of a run of additions come in order: none is before the one
/// before it, and the first is not before `from`.
pub open spec fn readings_in_order(from: Timestamp, additions: Seq<(u32, Timestamp)>) -> bool {
    forall|i: int|
        0 <= i < additions.len() ==> (if i == 0 {
            from
        } else {
            additions[i - 1].1
        }).at_or_before(#[trigger] additions[i].1)
}

/// Merge law. After any run of additions of one item the cart holds of it
/// what it held before and all that was added, or `u32::MAX` where that is
/// more; and every other item is as it was.
pub proof fn lemma_additions_merge(cart: CartView, key: ItemKey, additions: Seq<(u32, Timestamp)>)
    ensures
        add_all(cart, key, additions).quantity_of(key) == merged_quantity(
            cart.quantity_of(key),
            sum_added(additions),
        ),
        cart.quantity_of(key) + sum_added(additions) <= u32::MAX ==> add_all(
            cart,
            key,
            additions,
        ).quantity_of(key) == cart.quantity_of(key) + sum_added(additions),
        forall|other: ItemKey|
            other != key ==> (#[trigger] add_all(cart, key, additions).items.dom().contains(other))
                == cart.items.dom().contains(other) && add_all(cart, key, additions).quantity_of(
                other,
            ) == cart.quantity_of(other),
    decreases additions.len(),
{
    if additions.len() > 0 {
        let before = add_all(cart, key, additions.drop_last());
        lemma_additions_merge(cart, key, additions.drop_last());
        assert forall|other: ItemKey| other != key implies (#[trigger] add_all(
            cart,
            key,
            additions,
        ).items.dom().contains(other)) == cart.items.dom().contains(other) && add_all(
            cart,
            key,
            additions,
        ).quantity_of(other) == cart.quantity_of(other) by {
            assert(before.items.dom().contains(other) == cart.items.dom().contains(other));
        }
    }
}

/// Merge law, from an empty start: a run of additions of an item that the
/// cart does not hold leaves it with the sum of what was added, as long as
/// the sum can be written down.
pub proof fn lemma_additions_sum(cart: CartView, key: ItemKey, additions: Seq<(u32, Timestamp)>)
    requires
        !cart.items.dom().contains(key),
        sum_added(additions) <= u32::MAX,
    ensures
        add_all(cart, key, additions).quantity_of(key) == sum_added(additions),
{
    lemma_additions_merge(cart, key, additions);
}

/// Merge law, the time order. Where the readings of a run of additions come
/// in order, starting not before the last update of the cart, the time of
/// the last update after the run is the last reading, and it has not gone
/// back.
pub proof fn lemma_additions_in_order(
    cart: CartView,
    key: ItemKey,
    additions: Seq<(u32, Timestamp)>,
)
    requires
        cart.wf(),
        readings_in_order(cart.updated_at, additions),
    ensures
        add_all(cart, key, additions).created_at == cart.created_at,
        add_all(cart, key, additions).updated_at == (if additions.len() == 0 {
            cart.updated_at
        } else {
            additions.last().1
        }),
        cart.updated_at.at_or_before(add_all(cart, key, additions).updated_at),
    decreases additions.len(),
{
    if additions.len() > 0 {
        let front = additions.drop_last();
        assert(readings_in_order(cart.updated_at, front)) by {
            assert forall|i: int| 0 <= i < front.len() implies (if i == 0 {
                cart.updated_at
            } else {
                front[i - 1].1
            }).at_or_before(#[trigger] front[i].1) by {
                assert(front[i] == additions[i]);
            }
        }
        lemma_additions_in_order(cart, key, front);
        let n = additions.len() - 1;
        assert((if n == 0 {
            cart.updated_at
        } else {
            additions[n - 1].1
        }).at_or_before(additions[n].1));
    }
}

/// Merge law, the time order call by call. Where the readings come in order,
/// each addition on its own leaves the time of the last update where it was
/// or moves it on.
pub proof fn lemma_additions_keep_time_order(
    cart: CartView,
    key: ItemKey,
    additions: Seq<(u32, Timestamp)>,
    n: int,
)
    requires
        cart.wf(),
        readings_in_order(cart.updated_at, additions),
        0 <= n < additions.len(),
    ensures
        add_all(cart, key, additions.take(n)).updated_at.at_or_before(
            add_all(cart, key, additions.take(n + 1)).updated_at,
        ),
{
    let upto = additions.take(n);
    let next = additions.take(n + 1);
    assert(next.drop_last() =~= upto);
    assert(readings_in_order(cart.updated_at, upto)) by {
        assert forall|i: int| 0 <= i < upto.len() implies (if i == 0 {
            cart.updated_at
        } else {
            upto[i - 1].1
        }).at_or_before(#[trigger] upto[i].1) by {
            assert(upto[i] == additions[i]);
        }
    }
    assert(readings_in_order(cart.updated_at, next)) by {
        assert forall|i: int| 0 <= i < next.len() implies (if i == 0 {
            cart.updated_at
        } else {
            next[i - 1].1
        }).at_or_before(#[trigger] next[i].1) by {
            assert(next[i] == additions[i]);
        }
    }
    lemma_additions_in_order(cart, key, upto);
    lemma_additions_in_order(cart, key, next);
    assert((if n == 0 {
        cart.updated_at
    } else {
        additions[n - 1].1
    }).at_or_before(additions[n].1));
}

/// Setting a quantity to zero is taking the item out: the same cart comes
/// out and the same answer is given, whatever the cart was.
pub proof fn lemma_update_to_zero_is_remove(cart: CartView, key: ItemKey, now: Timestamp)
    ensures
        cart.update_quantity(key, 0, now) == cart.remove_item(key, now),
{
}

/// Setting a quantity above zero for an item that is not in the cart does
/// nothing and says so.
pub proof fn lemma_update_of_absent_item(
    cart: CartView,
    key: ItemKey,
    quantity: u32,
    now: Timestamp,
)
    requires
        quantity > 0,
        !cart.items.dom().contains(key),
    ensures
        cart.update_quantity(key, quantity, now) == (cart, false),
{
}

/// Setting a quantity above zero for an item that is in the cart replaces
/// what the cart held of it.
pub proof fn lemma_update_of_present_item(
    cart: CartView,
    key: ItemKey,
    quantity: u32,
    now: Timestamp,
)
    requires
        quantity > 0,
        cart.items.dom().contains(key),
    ensures
        cart.update_quantity(key, quantity, now).1,
        cart.update_quantity(key, quantity, now).0.quantity_of(key) == quantity,
        cart.update_quantity(key, quantity, now).0.items.dom() == cart.items.dom(),
{
    assert(cart.items.insert(key, quantity).dom() =~= cart.items.dom());
}

/// Taking out an item that is not in the cart does nothing and says so.
pub proof fn lemma_remove_of_absent_item(cart: CartView, key: ItemKey, now: Timestamp)
    requires
        !cart.items.dom().contains(key),
    ensures
        cart.remove_item(key, now) == (cart, false),
{
}

/// Taking out an item twice is taking it out once: the second time finds
/// nothing and changes nothing, the time of the last update included.
pub proof fn lemma_remove_twice(cart: CartView, key: ItemKey, first: Timestamp, second: Timestamp)
    ensures
        cart.remove_item(key, first).0.remove_item(key, second) == (
            cart.remove_item(key, first).0,
            false,
        ),
{
}

/// Clearing empties the cart whatever it held, an empty cart too, and stores
/// the reading of the clock as the time of the last update, or the time of
/// creation where the clock reads before it.
pub proof fn lemma_clear_empties(cart: CartView, now: Timestamp)
    ensures
        cart.clear(now).is_empty(),
        cart.clear(now).item_count() == 0,
        cart.clear(now).total_items() == 0,
        cart.clear(now).updated_at == cart.created_at.latest(now),
        cart.created_at.at_or_before(now) ==> cart.clear(now).updated_at == now,
{
}

/// Clearing twice is clearing once at the second reading.
pub proof fn lemma_clear_twice(cart: CartView, first: Timestamp, second: Timestamp)
    ensures
        cart.clear(first).clear(second) == cart.clear(second),
        cart.clear(first).clear(second).items == cart.clear(first).items,
{
}

/// Adding some of an item that the cart does not hold makes the cart one
/// item larger and its total larger by what was added.
pub proof fn lemma_add_of_new_item(cart: CartView, key: ItemKey, quantity: u32, now: Timestamp)
    requires
        cart.wf(),
        !cart.items.dom().contains(key),
        quantity > 0,
    ensures
        cart.add_item(key, quantity, now).item_count() == cart.item_count() + 1,
        cart.add_item(key, quantity, now).total_items() == cart.total_items() + quantity,
{
    lemma_total_insert(cart.items, key, quantity);
}

/// Adding some of an item that the cart holds leaves the number of items as
/// it is and moves the total by as much as the quantity of the item moves.
pub proof fn lemma_add_of_held_item(cart: CartView, key: ItemKey, quantity: u32, now: Timestamp)
    requires
        cart.wf(),
        cart.items.dom().contains(key),
    ensures
        cart.add_item(key, quantity, now).item_count() == cart.item_count(),
        cart.add_item(key, quantity, now).total_items() == cart.total_items() - cart.items[key]
            + merged_quantity(cart.items[key] as nat, quantity as nat),
{
    let merged = merged_quantity(cart.items[key] as nat, quantity as nat);
    let after = cart.items.insert(key, merged);
    assert(after.dom() =~= cart.items.dom());
    lemma_total_split(cart.items, key);
    lemma_total_split(after, key);
    assert(after.remove(key) =~= cart.items.remove(key));
}

/// Taking out an item that the cart holds makes the cart one item smaller
/// and its total smaller by the quantity of the item.
pub proof fn lemma_remove_of_held_item(cart: CartView, key: ItemKey, now: Timestamp)
    requires
        cart.wf(),
        cart.items.dom().contains(key),
    ensures
        cart.remove_item(key, now).1,
        cart.remove_item(key, now).0.item_count() == cart.item_count() - 1,
        cart.remove_item(key, now).0.total_items() == cart.total_items() - cart.items[key],
        !cart.remove_item(key, now).0.items.dom().contains(key),
{
    lemma_total_split(cart.items, key);
}

/// A cart is empty just when it counts no item, and then its total is zero.
pub proof fn lemma_empty_cart(cart: CartView)
    requires
        cart.wf(),
    ensures
        cart.is_empty() <==> cart.item_count() == 0,
        cart.is_empty() ==> cart.total_items() == 0,
{
    if cart.item_count() == 0 {
        assert(cart.items.dom() =~= Set::<ItemKey>::empty());
        assert(cart.items =~= Map::<ItemKey, u32>::empty());
    }
}

} // verus!
