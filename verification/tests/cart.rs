use mall::domain::model::cart::Cart;
use mall::domain::model::cart::CartId;
use mall::domain::model::cart::CartStatus;
use mall::domain::model::item::ItemId;
use mall::domain::model::quantities::ItemQuantities;
use mall::domain::model::timestamp::Timestamp;
use mall::domain::model::user::UserId;

fn create_test_cart() -> Cart {
    Cart::new(None)
}

fn create_test_item_id(id: &str) -> ItemId {
    ItemId::try_from(id).unwrap()
}

fn cart_made_at(secs: i64) -> Cart {
    Cart::new_at(CartId::try_from("cart-1").unwrap(), None, Timestamp::new(secs, 0), None)
}

#[test]
fn test_new_cart() {
    let cart = create_test_cart();

    assert!(cart.user_id().is_none());
    assert!(cart.items().is_empty());
    assert_eq!(cart.total_price(), Some(0));
    assert_eq!(cart.status(), CartStatus::Active);
    assert!(cart.expires_at().is_some());
}

#[test]
fn test_add_item() {
    let mut cart = create_test_cart();
    let item_id = create_test_item_id("item1");

    cart.add_item(item_id.clone(), 2);
    assert_eq!(cart.items().get(&item_id), Some(&2));
    assert_eq!(cart.item_count(), 1);
    assert_eq!(cart.total_items(), 2);
}

#[test]
fn test_add_item_increases_quantity() {
    let mut cart = create_test_cart();
    let item_id = create_test_item_id("item1");

    cart.add_item(item_id.clone(), 2);
    cart.add_item(item_id.clone(), 3);
    assert_eq!(cart.items().get(&item_id), Some(&5));
}

#[test]
fn test_remove_item() {
    let mut cart = create_test_cart();
    let item_id = create_test_item_id("item1");

    cart.add_item(item_id.clone(), 2);
    assert_eq!(cart.item_count(), 1);

    let removed = cart.remove_item(&item_id);
    assert!(removed);
    assert_eq!(cart.item_count(), 0);
}

#[test]
fn test_remove_nonexistent_item() {
    let mut cart = create_test_cart();
    let item_id = create_test_item_id("item1");

    let removed = cart.remove_item(&item_id);
    assert!(!removed);
}

#[test]
fn test_update_quantity() {
    let mut cart = create_test_cart();
    let item_id = create_test_item_id("item1");

    cart.add_item(item_id.clone(), 1);

    let updated = cart.update_quantity(&item_id, 2);

    assert!(updated);
    assert_eq!(cart.items().get(&item_id), Some(&2));
}

#[test]
fn test_zero_item_update_quantity() {
    let mut cart = create_test_cart();
    let item_id = create_test_item_id("item1");

    cart.add_item(item_id.clone(), 1);

    let updated = cart.update_quantity(&item_id, 0);
    assert!(updated);
    assert_eq!(cart.items().get(&item_id), None);
}

#[test]
fn test_clear_cart() {
    let mut cart = create_test_cart();
    let item_id1 = create_test_item_id("item1");
    let item_id2 = create_test_item_id("item2");

    cart.add_item(item_id1.clone(), 1);
    cart.add_item(item_id2.clone(), 2);

    assert_eq!(cart.item_count(), 2);

    cart.clear();

    assert!(cart.is_empty());
    assert_eq!(cart.item_count(), 0);
    assert_eq!(cart.total_items(), 0);
}

#[test]
fn test_is_empty() {
    let mut cart = create_test_cart();
    assert!(cart.is_empty());

    cart.add_item(create_test_item_id("item1"), 1);

    assert!(!cart.is_empty());
}

#[test]
fn test_item_count() {
    let mut cart = create_test_cart();

    assert_eq!(cart.item_count(), 0);

    cart.add_item(create_test_item_id("item1"), 1);
    cart.add_item(create_test_item_id("item2"), 2);

    assert_eq!(cart.item_count(), 2);
}

#[test]
fn test_total_item() {
    let mut cart = create_test_cart();

    assert_eq!(cart.total_items(), 0);

    cart.add_item(create_test_item_id("item1"), 2);
    cart.add_item(create_test_item_id("item2"), 3);

    assert_eq!(cart.total_items(), 5);
}

#[test]
fn new_cart_has_all_its_parts() {
    let owner = UserId("user-7".to_string());
    let cart = Cart::new(Some(owner.clone()));

    assert_eq!(cart.user_id(), &Some(owner));
    assert_eq!(cart.items_price(), Some(0));
    assert_eq!(cart.total_price(), Some(0));
    assert_eq!(cart.status(), CartStatus::Active);
    assert_eq!(cart.created_at(), cart.updated_at());
    assert_eq!(cart.item_count(), 0);
    assert_eq!(cart.total_items(), 0);
}

#[test]
fn new_cart_is_made_now() {
    let cart = create_test_cart();

    // Later than 2020-09-13 and before the year 2100.
    assert!(cart.created_at().secs > 1_600_000_000);
    assert!(cart.created_at().secs < 4_102_444_800);
    assert!(cart.created_at().nanos < 1_000_000_000);
}

#[test]
fn new_cart_expires_sixty_days_after_it_was_made() {
    let cart = create_test_cart();

    let expires_at = cart.expires_at().unwrap();
    assert_eq!(expires_at.secs - cart.created_at().secs, 60 * 86_400);
    assert_eq!(expires_at.secs - cart.created_at().secs, 5_184_000);
    assert_eq!(expires_at.nanos, cart.created_at().nanos);
}

#[test]
fn new_cart_at_takes_its_parts_as_given() {
    let id = CartId::try_from("cart-9").unwrap();
    let made = Timestamp::new(1_700_000_000, 5);
    let expiry = Timestamp::new(1_705_184_000, 5);
    let cart = Cart::new_at(id.clone(), None, made, Some(expiry));

    assert_eq!(cart.id(), &id);
    assert_eq!(cart.id().value(), "cart-9");
    assert_eq!(cart.created_at(), made);
    assert_eq!(cart.updated_at(), made);
    assert_eq!(cart.expires_at(), Some(expiry));
    assert!(cart.is_empty());
}

fn has_the_form_of_a_uuid(text: &str) -> bool {
    text.len() == 36
        && text.chars().enumerate().all(|(i, c)| match i {
            8 | 13 | 18 | 23 => c == '-',
            _ => c.is_ascii_digit() || ('a'..='f').contains(&c),
        })
}

#[test]
fn cart_ids_are_fresh_uuids() {
    let first = CartId::new();
    let second = CartId::new();

    assert_ne!(first, second);
    assert_eq!(first.value().len(), 36);
    assert!(has_the_form_of_a_uuid(first.value()));
    assert!(has_the_form_of_a_uuid(second.value()));
    assert!(has_the_form_of_a_uuid(Cart::new(None).id().value()));
    assert!(!has_the_form_of_a_uuid("0123456789abcdef0123456789abcdef0123"));
    assert!(!has_the_form_of_a_uuid("01234567-89AB-cdef-0123-456789abcdef"));
}

#[test]
fn cart_id_rejects_the_empty_text() {
    assert_eq!(CartId::try_from("").err(), Some("cart id error"));
    assert_eq!(CartId::try_from("abc").unwrap().value(), "abc");
}

#[test]
fn two_additions_of_one_item_merge() {
    let mut cart = Cart::new(None);
    let item_id = create_test_item_id("item1");

    cart.add_item(item_id.clone(), 2);
    cart.add_item(item_id.clone(), 3);

    assert_eq!(cart.items().get(&item_id), Some(&5));
    assert_eq!(cart.item_count(), 1);
    assert_eq!(cart.total_items(), 5);
}

#[test]
fn update_to_zero_takes_the_item_out() {
    let mut cart = Cart::new(None);
    let item_id = create_test_item_id("item1");

    cart.add_item(item_id.clone(), 1);
    let applied = cart.update_quantity(&item_id, 0);

    assert!(applied);
    assert!(!cart.items().contains_key(&item_id));
    assert_eq!(cart.items().get(&item_id), None);
}

#[test]
fn additions_of_one_item_add_up() {
    let mut cart = cart_made_at(100);
    let item_id = create_test_item_id("item1");
    let other = create_test_item_id("item2");
    cart.add_item_at(other.clone(), 7, Timestamp::new(100, 1));

    let mut sum = 0;
    let mut last_update = cart.updated_at();
    for (n, quantity) in [2u32, 3, 4, 0, 11].iter().enumerate() {
        cart.add_item_at(item_id.clone(), *quantity, Timestamp::new(101 + n as i64, 0));
        sum += quantity;
        assert_eq!(cart.items().get(&item_id), Some(&sum));
        assert!(last_update <= cart.updated_at());
        last_update = cart.updated_at();
    }

    assert_eq!(cart.items().get(&item_id), Some(&20));
    assert_eq!(cart.items().get(&other), Some(&7));
    assert_eq!(cart.item_count(), 2);
    assert_eq!(cart.total_items(), 27);
    assert_eq!(cart.updated_at(), Timestamp::new(105, 0));
}

#[test]
fn addition_stops_at_the_largest_quantity() {
    let mut cart = cart_made_at(100);
    let item_id = create_test_item_id("item1");

    cart.add_item_at(item_id.clone(), u32::MAX - 1, Timestamp::new(101, 0));
    cart.add_item_at(item_id.clone(), 1, Timestamp::new(102, 0));
    assert_eq!(cart.items().get(&item_id), Some(&u32::MAX));

    cart.add_item_at(item_id.clone(), 5, Timestamp::new(103, 0));
    assert_eq!(cart.items().get(&item_id), Some(&u32::MAX));
    assert_eq!(cart.total_items(), u32::MAX);
    assert_eq!(cart.checked_total_items(), Some(u32::MAX));
}

#[test]
fn adding_nothing_of_a_new_item_lists_no_item() {
    let mut cart = cart_made_at(100);
    let item_id = create_test_item_id("item1");

    cart.add_item_at(item_id.clone(), 0, Timestamp::new(150, 0));

    assert_eq!(cart.items().get(&item_id), None);
    assert!(cart.is_empty());
    assert_eq!(cart.updated_at(), Timestamp::new(150, 0));
}

#[test]
fn adding_nothing_of_a_held_item_keeps_its_quantity() {
    let mut cart = cart_made_at(100);
    let item_id = create_test_item_id("item1");

    cart.add_item_at(item_id.clone(), 4, Timestamp::new(110, 0));
    cart.add_item_at(item_id.clone(), 0, Timestamp::new(120, 0));

    assert_eq!(cart.items().get(&item_id), Some(&4));
    assert_eq!(cart.updated_at(), Timestamp::new(120, 0));
}

#[test]
fn update_to_zero_does_what_remove_does() {
    let item_id = create_test_item_id("item1");
    let absent = create_test_item_id("item2");
    let mut updated = cart_made_at(100);
    updated.add_item_at(item_id.clone(), 3, Timestamp::new(101, 0));
    let mut removed = updated.clone();

    assert_eq!(
        updated.update_quantity_at(&item_id, 0, Timestamp::new(200, 0)),
        removed.remove_item_at(&item_id, Timestamp::new(200, 0))
    );
    assert_eq!(updated.items().entries(), removed.items().entries());
    assert_eq!(updated.updated_at(), removed.updated_at());
    assert_eq!(updated.updated_at(), Timestamp::new(200, 0));

    assert_eq!(
        updated.update_quantity_at(&absent, 0, Timestamp::new(300, 0)),
        removed.remove_item_at(&absent, Timestamp::new(300, 0))
    );
    assert_eq!(updated.items().entries(), removed.items().entries());
    assert_eq!(updated.updated_at(), removed.updated_at());
    assert_eq!(updated.updated_at(), Timestamp::new(200, 0));
}

#[test]
fn update_of_an_absent_item_changes_nothing() {
    let mut cart = cart_made_at(100);
    let held = create_test_item_id("item1");
    let absent = create_test_item_id("item2");
    cart.add_item_at(held.clone(), 3, Timestamp::new(101, 0));

    let applied = cart.update_quantity_at(&absent, 9, Timestamp::new(500, 0));

    assert!(!applied);
    assert_eq!(cart.items().entries(), vec![(held, 3)]);
    assert_eq!(cart.updated_at(), Timestamp::new(101, 0));
}

#[test]
fn update_of_a_held_item_replaces_its_quantity() {
    let mut cart = cart_made_at(100);
    let held = create_test_item_id("item1");
    cart.add_item_at(held.clone(), 3, Timestamp::new(101, 0));

    let applied = cart.update_quantity_at(&held, 9, Timestamp::new(500, 0));

    assert!(applied);
    assert_eq!(cart.items().get(&held), Some(&9));
    assert_eq!(cart.item_count(), 1);
    assert_eq!(cart.updated_at(), Timestamp::new(500, 0));
}

#[test]
fn update_never_puts_a_new_item_in() {
    let mut cart = create_test_cart();
    let before = cart.updated_at();

    let applied = cart.update_quantity(&create_test_item_id("item1"), 4);

    assert!(!applied);
    assert!(cart.is_empty());
    assert_eq!(cart.updated_at(), before);
}

#[test]
fn remove_of_an_absent_item_leaves_the_time_of_update() {
    let mut cart = cart_made_at(100);
    let held = create_test_item_id("item1");
    cart.add_item_at(held.clone(), 3, Timestamp::new(101, 0));

    let removed = cart.remove_item_at(&create_test_item_id("item2"), Timestamp::new(500, 0));

    assert!(!removed);
    assert_eq!(cart.updated_at(), Timestamp::new(101, 0));
    assert_eq!(cart.items().get(&held), Some(&3));
}

#[test]
fn remove_twice_finds_nothing_the_second_time() {
    let mut cart = cart_made_at(100);
    let held = create_test_item_id("item1");
    cart.add_item_at(held.clone(), 3, Timestamp::new(101, 0));

    assert!(cart.remove_item_at(&held, Timestamp::new(200, 0)));
    assert!(!cart.remove_item_at(&held, Timestamp::new(300, 0)));
    assert_eq!(cart.updated_at(), Timestamp::new(200, 0));
}

#[test]
fn clear_empties_and_stores_the_reading() {
    let mut cart = cart_made_at(100);
    cart.add_item_at(create_test_item_id("item1"), 3, Timestamp::new(101, 0));
    cart.add_item_at(create_test_item_id("item2"), 4, Timestamp::new(102, 0));

    cart.clear_at(Timestamp::new(300, 0));
    assert!(cart.is_empty());
    assert_eq!(cart.item_count(), 0);
    assert_eq!(cart.total_items(), 0);
    assert_eq!(cart.updated_at(), Timestamp::new(300, 0));

    cart.clear_at(Timestamp::new(400, 0));
    assert!(cart.is_empty());
    assert_eq!(cart.updated_at(), Timestamp::new(400, 0));
}

#[test]
fn clear_now_empties_the_cart() {
    let mut cart = create_test_cart();
    cart.add_item(create_test_item_id("item1"), 3);

    cart.clear();

    assert!(cart.is_empty());
    assert!(cart.created_at() <= cart.updated_at());
}

#[test]
fn every_change_stores_the_reading() {
    let held = create_test_item_id("item1");
    let other = create_test_item_id("item2");
    let made_with_items = || {
        let mut cart = cart_made_at(1_000);
        cart.add_item_at(held.clone(), 1, Timestamp::new(3_000, 0));
        cart.add_item_at(other.clone(), 1, Timestamp::new(3_000, 0));
        cart
    };
    // Readings after the last update, before it, and at the creation.
    for reading in [Timestamp::new(4_000, 7), Timestamp::new(2_000, 0), Timestamp::new(1_000, 0)] {
        let mut cart = made_with_items();
        cart.add_item_at(held.clone(), 1, reading);
        assert_eq!(cart.updated_at(), reading);

        let mut cart = made_with_items();
        assert!(cart.remove_item_at(&held, reading));
        assert_eq!(cart.updated_at(), reading);

        let mut cart = made_with_items();
        assert!(cart.update_quantity_at(&held, 0, reading));
        assert_eq!(cart.updated_at(), reading);

        let mut cart = made_with_items();
        assert!(cart.update_quantity_at(&held, 9, reading));
        assert_eq!(cart.updated_at(), reading);
        assert_eq!(cart.items().get(&held), Some(&9));
        assert_eq!(cart.items().get(&other), Some(&1));
        assert_eq!(cart.item_count(), 2);

        let mut cart = made_with_items();
        cart.clear_at(reading);
        assert_eq!(cart.updated_at(), reading);

        let mut cart = cart_made_at(1_000);
        cart.clear_at(reading);
        assert_eq!(cart.updated_at(), reading);
        assert!(cart.is_empty());
    }
}

#[test]
fn changes_that_do_nothing_leave_the_time_of_update() {
    let held = create_test_item_id("item1");
    let absent = create_test_item_id("item2");
    for reading in [Timestamp::new(4_000, 0), Timestamp::new(2_000, 0), Timestamp::new(10, 0)] {
        let mut cart = cart_made_at(1_000);
        cart.add_item_at(held.clone(), 1, Timestamp::new(3_000, 0));

        assert!(!cart.remove_item_at(&absent, reading));
        assert!(!cart.update_quantity_at(&absent, 0, reading));
        assert!(!cart.update_quantity_at(&absent, 5, reading));
        assert_eq!(cart.updated_at(), Timestamp::new(3_000, 0));
        assert_eq!(cart.items().get(&held), Some(&1));
    }
}

#[test]
fn reading_before_the_creation_is_held_back() {
    let held = create_test_item_id("item1");
    let before = Timestamp::new(999, 999_999_999);
    let made = Timestamp::new(1_000, 0);

    let mut cart = cart_made_at(1_000);
    cart.add_item_at(held.clone(), 1, Timestamp::new(3_000, 0));
    cart.add_item_at(held.clone(), 1, before);
    assert_eq!(cart.updated_at(), made);
    assert_eq!(cart.items().get(&held), Some(&2));

    cart.add_item_at(held.clone(), 1, Timestamp::new(3_000, 0));
    assert!(cart.update_quantity_at(&held, 7, before));
    assert_eq!(cart.updated_at(), made);

    cart.add_item_at(held.clone(), 1, Timestamp::new(3_000, 0));
    assert!(cart.remove_item_at(&held, before));
    assert_eq!(cart.updated_at(), made);

    cart.add_item_at(held.clone(), 1, Timestamp::new(3_000, 0));
    cart.clear_at(before);
    assert_eq!(cart.updated_at(), made);
    assert!(cart.created_at() <= cart.updated_at());
}

#[test]
fn readings_in_order_never_move_the_time_of_update_back() {
    let mut cart = cart_made_at(1_000);
    let held = create_test_item_id("item1");
    let mut last = cart.updated_at();

    for secs in [1_000, 1_000, 1_500, 2_000, 2_000, 9_000] {
        cart.add_item_at(held.clone(), 1, Timestamp::new(secs, 0));
        assert!(last <= cart.updated_at());
        assert_eq!(cart.updated_at(), Timestamp::new(secs, 0));
        last = cart.updated_at();
    }
    assert_eq!(cart.items().get(&held), Some(&6));
}

#[test]
fn operations_leave_the_rest_of_the_cart_alone() {
    let owner = UserId("user-7".to_string());
    let id = CartId::try_from("cart-3").unwrap();
    let made = Timestamp::new(100, 0);
    let expiry = Timestamp::new(5_184_100, 0);
    let mut cart = Cart::new_at(id.clone(), Some(owner.clone()), made, Some(expiry));
    let held = create_test_item_id("item1");

    cart.add_item_at(held.clone(), 2, Timestamp::new(101, 0));
    cart.update_quantity_at(&held, 5, Timestamp::new(102, 0));
    cart.remove_item_at(&held, Timestamp::new(103, 0));
    cart.clear_at(Timestamp::new(104, 0));

    assert_eq!(cart.id(), &id);
    assert_eq!(cart.user_id(), &Some(owner));
    assert_eq!(cart.items_price(), Some(0));
    assert_eq!(cart.total_price(), Some(0));
    assert_eq!(cart.status(), CartStatus::Active);
    assert_eq!(cart.expires_at(), Some(expiry));
    assert_eq!(cart.created_at(), made);
}

#[test]
fn total_that_cannot_be_written_down_is_none() {
    let mut cart = cart_made_at(100);
    cart.add_item_at(create_test_item_id("item1"), u32::MAX, Timestamp::new(101, 0));
    assert_eq!(cart.checked_total_items(), Some(u32::MAX));

    cart.add_item_at(create_test_item_id("item2"), 1, Timestamp::new(102, 0));
    assert_eq!(cart.checked_total_items(), None);
    assert_eq!(cart.item_count(), 2);
}

fn quantities(entries: &[(&str, u32)]) -> ItemQuantities {
    let mut quantities = ItemQuantities::new();
    for (id, quantity) in entries {
        quantities.insert(create_test_item_id(id), *quantity);
    }
    quantities
}

fn cart_of_parts(items: ItemQuantities, created_at: i64, updated_at: i64) -> Option<Cart> {
    Cart::from_parts(
        CartId::try_from("cart-5").unwrap(),
        Some(UserId("user-7".to_string())),
        items,
        Some(1200),
        None,
        CartStatus::Checkout,
        None,
        Timestamp::new(created_at, 0),
        Timestamp::new(updated_at, 0),
    )
}

#[test]
fn cart_of_sound_parts_holds_them() {
    let cart = cart_of_parts(quantities(&[("item1", 2), ("item2", 3)]), 100, 100).unwrap();

    assert_eq!(cart.id().value(), "cart-5");
    assert_eq!(cart.user_id(), &Some(UserId("user-7".to_string())));
    assert_eq!(cart.items().get(&create_test_item_id("item1")), Some(&2));
    assert_eq!(cart.items().get(&create_test_item_id("item2")), Some(&3));
    assert_eq!(cart.item_count(), 2);
    assert_eq!(cart.items_price(), Some(1200));
    assert_eq!(cart.total_price(), None);
    assert_eq!(cart.status(), CartStatus::Checkout);
    assert_eq!(cart.expires_at(), None);
    assert_eq!(cart.created_at(), Timestamp::new(100, 0));
    assert_eq!(cart.updated_at(), Timestamp::new(100, 0));
}

#[test]
fn cart_with_a_zero_quantity_is_not_made() {
    assert!(cart_of_parts(quantities(&[("item1", 2), ("item2", 0)]), 100, 200).is_none());
    assert!(cart_of_parts(quantities(&[("item1", 2)]), 100, 200).is_some());
    assert!(cart_of_parts(quantities(&[]), 100, 200).is_some());
}

#[test]
fn cart_updated_before_it_was_made_is_not_made() {
    assert!(cart_of_parts(quantities(&[("item1", 2)]), 100, 99).is_none());
    assert!(Cart::from_parts(
        CartId::try_from("cart-5").unwrap(),
        None,
        ItemQuantities::new(),
        None,
        None,
        CartStatus::Active,
        None,
        Timestamp::new(100, 1),
        Timestamp::new(100, 0),
    )
    .is_none());
}

#[test]
fn clone_of_a_cart_holds_the_same() {
    let mut cart = cart_made_at(100);
    cart.add_item_at(create_test_item_id("item1"), 3, Timestamp::new(101, 0));
    cart.add_item_at(create_test_item_id("item2"), 4, Timestamp::new(102, 0));

    let copy = cart.clone();

    assert_eq!(copy.id(), cart.id());
    assert_eq!(copy.items().entries(), cart.items().entries());
    assert_eq!(copy.updated_at(), cart.updated_at());
    assert_eq!(copy.total_items(), 7);
}
