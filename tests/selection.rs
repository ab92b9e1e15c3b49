use std::sync::Arc;

use qpmu::bounded::BoundedUsize;
use qpmu::plugin::Plugin;
use qpmu::protocol::{self, ListStyle};
use qpmu::result_list::ResultList;

fn list_of(n: u64) -> ResultList {
    let plugin = Arc::new(Plugin::new("test".to_string()));
    let items = (0..n)
        .map(|i| protocol::ListItem::new(format!("item {i}")).with_id(i))
        .collect();
    ResultList::from_items(&plugin, items, Some(ListStyle::Rows))
}

#[test]
fn wrapping_from_zero_goes_to_bound() {
    let mut b = BoundedUsize::new_with_bound(5);
    b.wrapping_add_signed(-1);
    assert_eq!(b.value(), 5);
}

#[test]
fn wrapping_from_bound_goes_to_zero() {
    let mut b = BoundedUsize::new_with_bound(5);
    b.saturating_set(5);
    b.wrapping_add_signed(1);
    assert_eq!(b.value(), 0);
}

#[test]
fn wrapping_large_deltas() {
    let mut b = BoundedUsize::new_with_bound(4);
    b.wrapping_add_signed(isize::MAX);
    // isize::MAX mod 5 on a 64-bit target
    assert_eq!(b.value(), (isize::MAX % 5) as usize);
    let mut c = BoundedUsize::new_with_bound(usize::MAX);
    c.wrapping_add_signed(-1);
    assert_eq!(c.value(), usize::MAX);
}

#[test]
fn saturating_from_interior_stays_in_range() {
    for delta in [-100isize, -3, -1, 0, 1, 3, 100, isize::MIN, isize::MAX] {
        let mut b = BoundedUsize::new_with_bound(6);
        b.saturating_set(3);
        b.saturating_add_signed(delta);
        assert!(b.value() <= 6);
    }
    let mut b = BoundedUsize::new_with_bound(6);
    b.saturating_set(3);
    b.saturating_add_signed(-100);
    assert_eq!(b.value(), 0);
    b.saturating_set(3);
    b.saturating_add_signed(100);
    assert_eq!(b.value(), 6);
    b.saturating_set(3);
    b.saturating_add_signed(2);
    assert_eq!(b.value(), 5);
}

#[test]
fn saturating_set_clamps() {
    let mut b = BoundedUsize::new_with_bound(3);
    b.saturating_set(10);
    assert_eq!(b.value(), 3);
    assert!(b.is_max());
    assert!(b.is_at_bounds());
    b.saturating_set(1);
    assert!(!b.is_at_bounds());
    b.saturating_set(0);
    assert!(b.is_min());
}

#[test]
fn selected_item_matches_selection() {
    let mut list = list_of(4);
    for i in 0..4 {
        list.set_selection(i);
        let item = list.selected_item().unwrap();
        assert_eq!(item.title(), format!("item {}", list.selection()));
    }
}

#[test]
fn empty_list_has_no_selected_item() {
    let list = list_of(0);
    assert!(list.is_empty());
    assert!(list.selected_item().is_none());
    assert_eq!(list.selection(), 0);
    assert!(ResultList::new().selected_item().is_none());
}

#[test]
fn replacing_list_resets_selection() {
    let mut list = list_of(5);
    list.set_selection(3);
    assert_eq!(list.selection(), 3);
    let other = list_of(2);
    let items = other.items().to_vec();
    list.set(items, Some(ListStyle::Grid));
    assert_eq!(list.selection(), 0);
    assert_eq!(list.len(), 2);
    assert!(matches!(list.style(), Some(ListStyle::Grid)));
}

#[test]
fn move_wraps_at_ends_and_saturates_inside() {
    let mut list = list_of(10);
    list.move_selection_signed(-1);
    assert_eq!(list.selection(), 9);
    list.move_selection_signed(1);
    assert_eq!(list.selection(), 0);
    list.move_selection_signed(1);
    assert_eq!(list.selection(), 1);
    // from inside a large jump stops at the end first
    list.move_selection_signed(20);
    assert_eq!(list.selection(), 9);
    // from the end it wraps
    list.move_selection_signed(3);
    assert_eq!(list.selection(), 2);
    list.move_selection_signed(-20);
    assert_eq!(list.selection(), 0);
}

#[test]
fn items_carry_their_plugin() {
    let list = list_of(3);
    assert_eq!(list.items()[1].plugin().name(), "test");
    assert_eq!(list.items()[1].title(), "item 1");
    assert_eq!(list.items()[1].description(), "");
    assert!(list.items()[1].icon().is_none());
}
