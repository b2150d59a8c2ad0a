use mall::domain::model::item::ItemId;
use mall::domain::model::quantities::ItemQuantities;

fn item(id: &str) -> ItemId {
    ItemId::try_from(id).unwrap()
}

#[test]
fn new_quantities_are_empty() {
    let quantities = ItemQuantities::new();

    assert!(quantities.is_empty());
    assert_eq!(quantities.len(), 0);
    assert_eq!(quantities.checked_total(), Some(0));
    assert_eq!(quantities.get(&item("a")), None);
    assert!(!quantities.contains_key(&item("a")));
    assert!(quantities.entries().is_empty());
    assert!(quantities.all_positive());
}

#[test]
fn insert_files_and_replaces() {
    let mut quantities = ItemQuantities::new();

    assert_eq!(quantities.insert(item("a"), 1), None);
    assert_eq!(quantities.insert(item("b"), 2), None);
    assert_eq!(quantities.insert(item("a"), 5), Some(1));

    assert_eq!(quantities.len(), 2);
    assert_eq!(quantities.get(&item("a")), Some(&5));
    assert_eq!(quantities.get(&item("b")), Some(&2));
    assert_eq!(quantities.checked_total(), Some(7));
    assert!(quantities.contains_key(&item("b")));
    assert!(!quantities.is_empty());
}

#[test]
fn remove_takes_out_one_key() {
    let mut quantities = ItemQuantities::new();
    quantities.insert(item("a"), 1);
    quantities.insert(item("b"), 2);
    quantities.insert(item("c"), 3);

    assert_eq!(quantities.remove(&item("b")), Some(2));
    assert_eq!(quantities.remove(&item("b")), None);

    assert_eq!(quantities.len(), 2);
    assert_eq!(quantities.get(&item("a")), Some(&1));
    assert_eq!(quantities.get(&item("b")), None);
    assert_eq!(quantities.get(&item("c")), Some(&3));
    assert_eq!(quantities.checked_total(), Some(4));
}

#[test]
fn clear_takes_out_everything() {
    let mut quantities = ItemQuantities::new();
    quantities.insert(item("a"), 1);
    quantities.insert(item("b"), 2);

    quantities.clear();

    assert!(quantities.is_empty());
    assert_eq!(quantities.len(), 0);
    assert_eq!(quantities.checked_total(), Some(0));
}

#[test]
fn entries_list_every_item_once() {
    let mut quantities = ItemQuantities::new();
    quantities.insert(item("a"), 1);
    quantities.insert(item("b"), 2);
    quantities.insert(item("a"), 3);

    let mut entries = quantities.entries();
    entries.sort_by(|left, right| left.1.cmp(&right.1));

    assert_eq!(entries, vec![(item("b"), 2), (item("a"), 3)]);
}

#[test]
fn absent_identifier_is_a_key_of_its_own() {
    let mut quantities = ItemQuantities::new();
    quantities.insert(item(""), 4);
    quantities.insert(item("a"), 1);

    assert_eq!(quantities.get(&item("")), Some(&4));
    assert_eq!(quantities.len(), 2);
}

#[test]
fn total_is_checked_for_overflow() {
    let mut quantities = ItemQuantities::new();
    quantities.insert(item("a"), u32::MAX - 1);
    quantities.insert(item("b"), 1);
    assert_eq!(quantities.checked_total(), Some(u32::MAX));

    quantities.insert(item("c"), 1);
    assert_eq!(quantities.checked_total(), None);
}

#[test]
fn zero_quantities_are_found() {
    let mut quantities = ItemQuantities::new();
    quantities.insert(item("a"), 2);
    assert!(quantities.all_positive());

    quantities.insert(item("b"), 0);
    assert!(!quantities.all_positive());
}

#[test]
fn clone_of_quantities_holds_the_same() {
    let mut quantities = ItemQuantities::new();
    quantities.insert(item("a"), 2);
    quantities.insert(item("b"), 3);

    let mut copy = quantities.clone();
    assert_eq!(copy.entries(), quantities.entries());

    copy.insert(item("a"), 9);
    assert_eq!(quantities.get(&item("a")), Some(&2));
    assert_eq!(copy.get(&item("a")), Some(&9));
}
