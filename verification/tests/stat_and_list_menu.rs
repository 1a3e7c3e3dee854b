use alveus_idle::menus_model::{ListMenuDirection, ListMenuState};
use alveus_idle::types::{CleanStat, EnrichStat, FeedStat, Stat};

#[test]
fn cursor_wraps_and_empty_lists_are_stable() {
    let mut menu = ListMenuState::new(vec!["one", "two", "three"]);
    assert!(menu.move_cursor(-1));
    assert_eq!(menu.cursor, 2);
    assert_eq!(menu.selected(), Some(&"three"));
    assert!(menu.move_cursor(1));
    assert_eq!(menu.cursor, 0);

    let mut empty = ListMenuState::<()>::default();
    assert!(!empty.move_cursor(1));
    assert!(!empty.set_cursor(0));
    assert_eq!(empty.selected_index(), None);
}

#[test]
fn set_cursor_rejects_unchanged_and_out_of_bounds_indices() {
    let mut menu = ListMenuState::new(vec![10, 20]);
    assert!(!menu.set_cursor(0));
    assert!(!menu.set_cursor(2));
    assert!(menu.set_cursor(1));
    assert_eq!(menu.selected(), Some(&20));
}

#[test]
fn saturating_add_capped_clamps_at_cap() {
    assert_eq!(
        Stat(900).saturating_add_capped(Stat(200), Stat(1000)),
        Stat(1000)
    );
}

#[test]
fn saturating_add_capped_below_cap() {
    assert_eq!(
        Stat(500).saturating_add_capped(Stat(200), Stat(1000)),
        Stat(700)
    );
}

#[test]
fn saturating_sub_floors_at_zero() {
    assert_eq!(Stat(100).saturating_sub(Stat(200)), Stat(0));
}

#[test]
fn saturating_sub_in_range() {
    assert_eq!(Stat(500).saturating_sub(Stat(200)), Stat(300));
}

#[test]
fn action_wrappers_convert_to_inner_stat() {
    assert_eq!(Stat::from(FeedStat(Stat(1000))), Stat(1000));
    assert_eq!(Stat::from(EnrichStat(Stat(250))), Stat(250));
    assert_eq!(Stat::from(CleanStat(Stat(350))), Stat(350));
}

#[test]
fn get_and_is_zero() {
    assert_eq!(Stat(42).get(), 42);
    assert!(Stat(0).is_zero());
    assert!(!Stat(1).is_zero());
}

#[test]
fn saturating_add_capped_saturates_at_u32_max() {
    assert_eq!(
        Stat(u32::MAX - 1).saturating_add_capped(Stat(10), Stat(u32::MAX)),
        Stat(u32::MAX)
    );
}

#[test]
fn stat_converts_to_raw_units() {
    assert_eq!(u32::from(Stat(77)), 77);
}

#[test]
fn move_cursor_by_more_than_the_length_wraps() {
    let mut menu = ListMenuState::new(vec![1, 2, 3]);
    assert!(menu.move_cursor(4));
    assert_eq!(menu.cursor, 1);
    assert!(menu.move_cursor(-5));
    assert_eq!(menu.cursor, 2);
    assert!(!menu.move_cursor(3));
    assert_eq!(menu.cursor, 2);
}

#[test]
fn list_direction_deltas() {
    assert_eq!(ListMenuDirection::Up.delta(), -1);
    assert_eq!(ListMenuDirection::Down.delta(), 1);
}

#[test]
fn selected_index_is_none_past_the_end() {
    let mut menu = ListMenuState::new(vec![5]);
    menu.cursor = 3;
    assert_eq!(menu.selected_index(), None);
    assert_eq!(menu.selected(), None);
}
