//! The shopping cart: one shopper's selection of items and quantities.
//!
//! A cart is changed by its operations alone, and every operation keeps its
//! invariants: no item is listed with a quantity of zero, and the cart is
//! never updated before it was made. An operation that changes the cart
//! stores the reading of the clock as the time of the last update; only a
//! reading before the creation is held back at the time of creation.
//!
//! Every operation that reads the clock has a twin that takes the reading as
//! an argument (`add_item` and `add_item_at`, and so on). The twin says
//! exactly what the cart becomes; the operation itself says that the cart
//! becomes what its twin gives for some reading of the clock.

use vstd::prelude::*;
use vstd::std_specs::cmp::PartialEqSpecImpl;
use vstd::std_specs::convert::TryFromSpecImpl;
use crate::domain::model::identifier::random_uuid_text;
use crate::domain::model::identifier::is_uuid_text;
use crate::domain::model::item::ItemId;
use crate::domain::model::quantities::total_of;
use crate::domain::model::quantities::ItemKey;
use crate::domain::model::quantities::ItemQuantities;
use crate::domain::model::timestamp::Timestamp;
use crate::domain::model::timestamp::NANOS_PER_SECOND;
use crate::domain::model::timestamp::SECONDS_PER_DAY;
use crate::domain::model::user::UserId;

verus! {

/// The number of days after which a new cart expires.
pub const CART_LIFETIME_DAYS: i64 = 60;

/// Identifier of a cart: a text that is never empty.
#[derive(Debug, Eq, Hash)]
pub struct CartId(String);

impl View for CartId {
    type V = Seq<char>;

    closed spec fn view(&self) -> Seq<char> {
        self.0@
    }
}

impl CartId {
    #[verifier::type_invariant]
    spec fn not_empty(self) -> bool {
        self.0@.len() > 0
    }

    /// A fresh random identifier.
    pub fn new() -> (id: CartId)
        ensures
            is_uuid_text(id@),
    {
        CartId(random_uuid_text())
    }

    /// The text of the identifier.
    pub fn value(&self) -> (v: &str)
        ensures
            v@ == self@,
            v@.len() > 0,
    {
        proof {
            use_type_invariant(self);
        }
        self.0.as_str()
    }
}

impl Clone for CartId {
    fn clone(&self) -> (r: CartId)
        ensures
            r@ == self@,
    {
        proof {
            use_type_invariant(self);
        }
        CartId(self.0.clone())
    }
}

impl PartialEq for CartId {
    fn eq(&self, other: &CartId) -> (r: bool) {
        self.0 == other.0
    }
}

impl PartialEqSpecImpl for CartId {
    open spec fn obeys_eq_spec() -> bool {
        true
    }

    open spec fn eq_spec(&self, other: &CartId) -> bool {
        self@ == other@
    }
}

impl TryFrom<&str> for CartId {
    type Error = &'static str;

    /// Takes any text but the empty one.
    fn try_from(value: &str) -> (r: Result<CartId, &'static str>)
        ensures
            value@.len() == 0 ==> r == Err::<CartId, &'static str>("cart id error"),
            value@.len() > 0 ==> (r matches Ok(id) && id@ == value@),
    {
        if value.is_empty() {
            Err("cart id error")
        } else {
            Ok(CartId(value.to_string()))
        }
    }
}

impl TryFromSpecImpl<&str> for CartId {
    open spec fn obeys_try_from_spec() -> bool {
        false
    }

    open spec fn try_from_spec(v: &str) -> Result<CartId, &'static str> {
        arbitrary()
    }
}

/// Where a cart stands in its life.
#[derive(Debug, Clone, Copy, PartialEq, Eq, Structural)]
pub enum CartStatus {
    Active,
    Abandoned,
    Checkout,
    Completed,
}

/// What a cart holds, as mathematical values.
pub struct CartView {
    pub id: Seq<char>,
    pub user_id: Option<Seq<char>>,
    pub items: Map<ItemKey, u32>,
    pub items_price: Option<u64>,
    pub total_price: Option<u64>,
    pub status: CartStatus,
    pub expires_at: Option<Timestamp>,
    pub created_at: Timestamp,
    pub updated_at: Timestamp,
}

/// The sum of a quantity in the cart and a quantity added to it, held at the
/// largest quantity that can be written down.
pub open spec fn merged_quantity(held: nat, added: nat) -> u32 {
    if held + added > u32::MAX {
        u32::MAX
    } else {
        (held + added) as u32
    }
}

impl CartView {
    /// The invariants of a cart: finitely many items, none with quantity
    /// zero, and no update before the creation.
    pub open spec fn wf(self) -> bool {
        &&& self.items.dom().finite()
        &&& forall|key: ItemKey| self.items.dom().contains(key) ==> self.items[key] > 0
        &&& self.created_at.at_or_before(self.updated_at)
    }

    /// A cart as it is when it is made: empty, active, prices at zero.
    pub open spec fn fresh(
        id: Seq<char>,
        user_id: Option<Seq<char>>,
        now: Timestamp,
        expires_at: Option<Timestamp>,
    ) -> CartView {
        CartView {
            id,
            user_id,
            items: Map::empty(),
            items_price: Some(0),
            total_price: Some(0),
            status: CartStatus::Active,
            expires_at,
            created_at: now,
            updated_at: now,
        }
    }

    /// The quantity of an item; zero for an item that is not in the cart.
    pub open spec fn quantity_of(self, key: ItemKey) -> nat {
        if self.items.dom().contains(key) {
            self.items[key] as nat
        } else {
            0
        }
    }

    /// The cart with its items replaced.
    pub open spec fn with_items(self, items: Map<ItemKey, u32>) -> CartView {
        CartView { items, ..self }
    }

    /// The cart after a change at `now`: the time of the last update is the
    /// reading, whatever it was before. Only a reading before the creation is
    /// not stored: the time of the last update is then the time of creation,
    /// since a cart is never updated before it was made.
    pub open spec fn touched(self, now: Timestamp) -> CartView {
        CartView { updated_at: self.created_at.latest(now), ..self }
    }

    /// The items after `quantity` of item `key` has been added: the
    /// quantities merge, and an item with nothing in it is not listed.
    pub open spec fn items_with_added(self, key: ItemKey, quantity: u32) -> Map<ItemKey, u32> {
        let merged = merged_quantity(self.quantity_of(key), quantity as nat);
        if merged == 0 {
            self.items
        } else {
            self.items.insert(key, merged)
        }
    }

    /// The cart after `quantity` of item `key` has been added at `now`.
    pub open spec fn add_item(self, key: ItemKey, quantity: u32, now: Timestamp) -> CartView {
        self.with_items(self.items_with_added(key, quantity)).touched(now)
    }

    /// The cart after item `key` has been taken out at `now`, and whether
    /// there was such an item. A cart without the item stays as it is.
    pub open spec fn remove_item(self, key: ItemKey, now: Timestamp) -> (CartView, bool) {
        if self.items.dom().contains(key) {
            (self.with_items(self.items.remove(key)).touched(now), true)
        } else {
            (self, false)
        }
    }

    /// The cart after the quantity of item `key` has been set at `now`, and
    /// whether anything was done. Zero takes the item out; another quantity
    /// is set only for an item that is in the cart.
    pub open spec fn update_quantity(self, key: ItemKey, quantity: u32, now: Timestamp) -> (
        CartView,
        bool,
    ) {
        if quantity == 0 {
            self.remove_item(key, now)
        } else if self.items.dom().contains(key) {
            (self.with_items(self.items.insert(key, quantity)).touched(now), true)
        } else {
            (self, false)
        }
    }

    /// The cart after all items have been taken out at `now`.
    pub open spec fn clear(self, now: Timestamp) -> CartView {
        self.with_items(Map::empty()).touched(now)
    }

    /// Whether the cart holds no item.
    pub open spec fn is_empty(self) -> bool {
        self.items == Map::<ItemKey, u32>::empty()
    }

    /// The number of distinct items.
    pub open spec fn item_count(self) -> nat {
        self.items.dom().len()
    }

    /// The sum of the quantities of all items.
    pub open spec fn total_items(self) -> nat {
        total_of(self.items)
    }
}

/// A shopper's cart.
#[derive(Debug)]
pub struct Cart {
    id: CartId,
    /// The owner; none for a guest.
    user_id: Option<UserId>,
    items: ItemQuantities,
    /// The price of the items, in the unit in which items are priced. Nothing
    /// recomputes it when the items change.
    items_price: Option<u64>,
    /// The price to pay, in the same unit. Nothing recomputes it either.
    total_price: Option<u64>,
    /// No operation moves a cart from one status to another.
    status: CartStatus,
    expires_at: Option<Timestamp>,
    created_at: Timestamp,
    updated_at: Timestamp,
}

/// The owner of a cart as a mathematical value.
pub open spec fn owner_view(user_id: Option<UserId>) -> Option<Seq<char>> {
    match user_id {
        Some(user_id) => Some(user_id@),
        None => None,
    }
}

impl View for Cart {
    type V = CartView;

    closed spec fn view(&self) -> CartView {
        CartView {
            id: self.id@,
            user_id: owner_view(self.user_id),
            items: self.items@,
            items_price: self.items_price,
            total_price: self.total_price,
            status: self.status,
            expires_at: self.expires_at,
            created_at: self.created_at,
            updated_at: self.updated_at,
        }
    }
}

impl Clone for Cart {
    fn clone(&self) -> (r: Cart)
        ensures
            r@ == self@,
            r@.wf(),
    {
        proof {
            use_type_invariant(self);
        }
        Cart {
            id: self.id.clone(),
            user_id: match &self.user_id {
                Some(user_id) => Some(user_id.clone()),
                None => None,
            },
            items: self.items.clone(),
            items_price: self.items_price,
            total_price: self.total_price,
            status: self.status,
            expires_at: self.expires_at,
            created_at: self.created_at,
            updated_at: self.updated_at,
        }
    }
}

impl Cart {
    /// The invariants of a cart hold of every cart.
    #[verifier::type_invariant]
    spec fn sound(self) -> bool {
        self@.wf()
    }

    /// Takes the items out and leaves none behind.
    fn take_items(&mut self) -> (items: ItemQuantities)
        ensures
            items@ == old(self)@.items,
            final(self)@ == old(self)@.with_items(Map::empty()),
    {
        proof {
            use_type_invariant(&*self);
        }
        let mut items = ItemQuantities::new();
        core::mem::swap(&mut self.items, &mut items);
        items
    }

    /// A new cart for `user_id`, with a fresh identifier, made now.
    pub fn new(user_id: Option<UserId>) -> (cart: Cart)
        ensures
            cart@.wf(),
            is_uuid_text(cart@.id),
            cart@ == CartView::fresh(
                cart@.id,
                owner_view(user_id),
                cart@.created_at,
                cart@.created_at.plus_days(CART_LIFETIME_DAYS),
            ),
            cart@.created_at.secs >= 0,
            cart@.created_at.nanos < NANOS_PER_SECOND,
            cart@.expires_at matches Some(expiry) ==> expiry.nanos == cart@.created_at.nanos
                && expiry.secs == cart@.created_at.secs + CART_LIFETIME_DAYS * SECONDS_PER_DAY,
    {
        let now = Timestamp::now();
        let expires_at = now.checked_plus_days(CART_LIFETIME_DAYS);
        Cart::new_at(CartId::new(), user_id, now, expires_at)
    }

    /// A new cart with the given identifier, made at `now`.
    pub fn new_at(
        id: CartId,
        user_id: Option<UserId>,
        now: Timestamp,
        expires_at: Option<Timestamp>,
    ) -> (cart: Cart)
        ensures
            cart@.wf(),
            cart@ == CartView::fresh(id@, owner_view(user_id), now, expires_at),
    {
        let items = ItemQuantities::new();
        Cart {
            id,
            user_id,
            items,
            items_price: Some(0),
            total_price: Some(0),
            status: CartStatus::Active,
            expires_at,
            created_at: now,
            updated_at: now,
        }
    }

    /// The cart made of the given parts, if the invariants of a cart hold of
    /// them: no quantity of zero, and no update before the creation.
    pub fn from_parts(
        id: CartId,
        user_id: Option<UserId>,
        items: ItemQuantities,
        items_price: Option<u64>,
        total_price: Option<u64>,
        status: CartStatus,
        expires_at: Option<Timestamp>,
        created_at: Timestamp,
        updated_at: Timestamp,
    ) -> (r: Option<Cart>)
        ensures
            ({
                let parts = CartView {
                    id: id@,
                    user_id: owner_view(user_id),
                    items: items@,
                    items_price,
                    total_price,
                    status,
                    expires_at,
                    created_at,
                    updated_at,
                };
                match r {
                    Some(cart) => parts.wf() && cart@ == parts,
                    None => !parts.wf(),
                }
            }),
    {
        if items.all_positive() && created_at.not_after(&updated_at) {
            Some(
                Cart {
                    id,
                    user_id,
                    items,
                    items_price,
                    total_price,
                    status,
                    expires_at,
                    created_at,
                    updated_at,
                },
            )
        } else {
            None
        }
    }

    /// The identifier, which never changes.
    pub fn id(&self) -> (id: &CartId)
        ensures
            id@ == self@.id,
    {
        &self.id
    }

    /// The owner; none for a guest.
    pub fn user_id(&self) -> (user_id: &Option<UserId>)
        ensures
            owner_view(*user_id) == self@.user_id,
    {
        &self.user_id
    }

    /// The items with their quantities.
    pub fn items(&self) -> (items: &ItemQuantities)
        ensures
            items@ == self@.items,
            self@.wf(),
    {
        proof {
            use_type_invariant(self);
        }
        &self.items
    }

    /// The price of the items, in the unit in which items are priced.
    pub fn items_price(&self) -> (price: Option<u64>)
        ensures
            price == self@.items_price,
    {
        self.items_price
    }

    /// The price to pay, in the unit in which items are priced.
    pub fn total_price(&self) -> (price: Option<u64>)
        ensures
            price == self@.total_price,
    {
        self.total_price
    }

    /// Where the cart stands in its life.
    pub fn status(&self) -> (status: CartStatus)
        ensures
            status == self@.status,
    {
        self.status
    }

    /// When the cart expires, if it does. This is set when the cart is made
    /// and never moved.
    pub fn expires_at(&self) -> (instant: Option<Timestamp>)
        ensures
            instant == self@.expires_at,
    {
        self.expires_at
    }

    /// When the cart was made.
    pub fn created_at(&self) -> (instant: Timestamp)
        ensures
            instant == self@.created_at,
            self@.created_at.at_or_before(self@.updated_at),
    {
        proof {
            use_type_invariant(self);
        }
        self.created_at
    }

    /// When the cart was last changed; never before it was made.
    pub fn updated_at(&self) -> (instant: Timestamp)
        ensures
            instant == self@.updated_at,
            self@.created_at.at_or_before(self@.updated_at),
    {
        proof {
            use_type_invariant(self);
        }
        self.updated_at
    }

    /// Adds `quantity` of an item at `now`. The quantity merges with what the
    /// cart holds of the item, and stays at `u32::MAX` where the sum is
    /// larger. Adding nothing of an item that is not in the cart lists no
    /// item.
    pub fn add_item_at(&mut self, item_id: ItemId, quantity: u32, now: Timestamp)
        ensures
            final(self)@.wf(),
            final(self)@ == old(self)@.add_item(item_id@, quantity, now),
            old(self)@.created_at.at_or_before(now) ==> final(self)@.updated_at == now,
    {
        proof {
            use_type_invariant(&*self);
        }
        let mut items = self.take_items();
        let held: u32 = match items.get(&item_id) {
            Some(quantity) => *quantity,
            None => 0,
        };
        let merged: u32 = held.saturating_add(quantity);
        if merged > 0 {
            items.insert(item_id, merged);
        }
        self.items = items;
        self.updated_at = self.created_at.later_of(now);
    }

    /// Adds `quantity` of an item now.
    pub fn add_item(&mut self, item_id: ItemId, quantity: u32)
        ensures
            final(self)@.wf(),
            exists|now: Timestamp|
                now.secs >= 0 && now.nanos < NANOS_PER_SECOND && final(self)@
                    == #[trigger] old(self)@.add_item(item_id@, quantity, now),
            final(self)@.items == old(self)@.items_with_added(item_id@, quantity),
    {
        let now = Timestamp::now();
        self.add_item_at(item_id, quantity, now);
    }

    /// Takes an item out at `now`, and says whether there was one.
    pub fn remove_item_at(&mut self, item_id: &ItemId, now: Timestamp) -> (removed: bool)
        ensures
            final(self)@.wf(),
            (final(self)@, removed) == old(self)@.remove_item(item_id@, now),
            removed && old(self)@.created_at.at_or_before(now) ==> final(self)@.updated_at == now,
    {
        proof {
            use_type_invariant(&*self);
        }
        let mut items = self.take_items();
        let removed = items.remove(item_id).is_some();
        proof {
            if !removed {
                assert(items@ =~= old(self)@.items);
            }
        }
        self.items = items;
        if removed {
            self.updated_at = self.created_at.later_of(now);
        }
        removed
    }

    /// Takes an item out now, and says whether there was one. Without the
    /// item nothing changes, the time of the last update included.
    pub fn remove_item(&mut self, item_id: &ItemId) -> (removed: bool)
        ensures
            final(self)@.wf(),
            exists|now: Timestamp|
                now.secs >= 0 && now.nanos < NANOS_PER_SECOND && (final(self)@, removed)
                    == #[trigger] old(self)@.remove_item(item_id@, now),
            removed == old(self)@.items.dom().contains(item_id@),
            !removed ==> final(self)@ == old(self)@,
    {
        let now = Timestamp::now();
        self.remove_item_at(item_id, now)
    }

    /// Sets the quantity of an item at `now`, and says whether anything was
    /// done. Zero takes the item out. Any other quantity is set only where
    /// the item is in the cart already: this does not put a new item in.
    pub fn update_quantity_at(&mut self, item_id: &ItemId, quantity: u32, now: Timestamp) -> (applied:
        bool)
        ensures
            final(self)@.wf(),
            (final(self)@, applied) == old(self)@.update_quantity(item_id@, quantity, now),
            applied && old(self)@.created_at.at_or_before(now) ==> final(self)@.updated_at == now,
    {
        if quantity == 0 {
            return self.remove_item_at(item_id, now);
        }
        proof {
            use_type_invariant(&*self);
        }
        if self.items.contains_key(item_id) {
            let mut items = self.take_items();
            items.insert(item_id.clone(), quantity);
            self.items = items;
            self.updated_at = self.created_at.later_of(now);
            return true;
        }
        false
    }

    /// Sets the quantity of an item now, and says whether anything was done.
    /// A quantity above zero for an item that is not in the cart changes
    /// nothing, the time of the last update included.
    pub fn update_quantity(&mut self, item_id: &ItemId, quantity: u32) -> (applied: bool)
        ensures
            final(self)@.wf(),
            exists|now: Timestamp|
                now.secs >= 0 && now.nanos < NANOS_PER_SECOND && (final(self)@, applied)
                    == #[trigger] old(self)@.update_quantity(item_id@, quantity, now),
            applied == old(self)@.items.dom().contains(item_id@),
            !applied ==> final(self)@ == old(self)@,
    {
        let now = Timestamp::now();
        self.update_quantity_at(item_id, quantity, now)
    }

    /// Takes all items out at `now`.
    pub fn clear_at(&mut self, now: Timestamp)
        ensures
            final(self)@.wf(),
            final(self)@ == old(self)@.clear(now),
            old(self)@.created_at.at_or_before(now) ==> final(self)@.updated_at == now,
    {
        proof {
            use_type_invariant(&*self);
        }
        self.items = ItemQuantities::new();
        self.updated_at = self.created_at.later_of(now);
    }

    /// Takes all items out now. The reading of the clock becomes the time of
    /// the last update whether or not the cart held anything.
    pub fn clear(&mut self)
        ensures
            final(self)@.wf(),
            exists|now: Timestamp|
                now.secs >= 0 && now.nanos < NANOS_PER_SECOND && final(self)@
                    == #[trigger] old(self)@.clear(now),
            final(self)@.is_empty(),
    {
        let now = Timestamp::now();
        self.clear_at(now);
    }

    /// Whether the cart holds no item.
    pub fn is_empty(&self) -> (r: bool)
        ensures
            r == self@.is_empty(),
    {
        self.items.is_empty()
    }

    /// The number of distinct items.
    pub fn item_count(&self) -> (count: usize)
        ensures
            count == self@.item_count(),
    {
        self.items.len()
    }

    /// The sum of the quantities of all items, where it can be written down.
    pub fn checked_total_items(&self) -> (total: Option<u32>)
        ensures
            total == (if self@.total_items() <= u32::MAX {
                Some(self@.total_items() as u32)
            } else {
                None
            }),
    {
        self.items.checked_total()
    }

    /// The sum of the quantities of all items.
    pub fn total_items(&self) -> (total: u32)
        requires
            self@.total_items() <= u32::MAX,
        ensures
            total == self@.total_items(),
    {
        let total = self.items.checked_total();
        assert(total is Some);
        total.unwrap()
    }
}

} // verus!
