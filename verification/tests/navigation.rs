use canto::cursor::Trigger;
use canto::navigator::{Action, Layout, NavError, Navigator};

fn names(count: usize) -> Vec<String> {
    let mut list: Vec<String> = Vec::new();
    for i in 0..count {
        list.push(format!("/media/{i}.png"));
    }
    list
}

fn gallery(count: usize, layout: Layout) -> Navigator {
    match Navigator::new(names(count), layout) {
        Ok(nav) => nav,
        Err(_) => panic!("a list of {count} paths must be accepted"),
    }
}

fn at(count: usize, position: usize) -> Navigator {
    let mut nav = gallery(count, Layout::Slide);
    if position == count - 1 && count > 1 {
        nav.retreat();
    } else {
        for _ in 0..position {
            nav.advance();
        }
    }
    assert_eq!(nav.position(), position);
    nav
}

#[test]
fn new_starts_on_the_first_entry() {
    let nav = gallery(4, Layout::Grid(2));
    assert_eq!(nav.position(), 0);
    assert_eq!(nav.len(), 4);
    assert_eq!(nav.layout(), Layout::Grid(2));
    assert_eq!(nav.current(), "/media/0.png");
    assert_eq!(nav.paths(), &names(4));
}

#[test]
fn new_refuses_an_empty_list() {
    let made = Navigator::new(Vec::new(), Layout::Grid(3));
    assert_eq!(made.err(), Some(NavError::EmptyCollection));
    let made = Navigator::new(Vec::new(), Layout::Opt);
    assert!(matches!(made, Err(NavError::EmptyCollection)));
}

#[test]
fn advance_from_the_first_entry_lands_on_the_second() {
    for count in [2usize, 3, 5, 40] {
        let mut nav = gallery(count, Layout::Slide);
        assert_eq!(nav.advance(), "/media/1.png");
        assert_eq!(nav.position(), 1);
    }
}

#[test]
fn interior_steps_move_by_exactly_one() {
    let count: usize = 7;
    for position in 1..count - 1 {
        let mut nav = at(count, position);
        assert!(nav.in_bound());
        assert_eq!(nav.advance(), &format!("/media/{}.png", position + 1));
        assert_eq!(nav.position(), position + 1);

        let mut nav = at(count, position);
        assert_eq!(nav.retreat(), &format!("/media/{}.png", position - 1));
        assert_eq!(nav.position(), position - 1);
    }
}

#[test]
fn advance_from_the_last_entry_lands_on_the_second_not_the_first() {
    for count in [2usize, 3, 5, 40] {
        let mut nav = at(count, count - 1);
        assert_eq!(nav.advance(), "/media/1.png");
        assert_eq!(nav.position(), 1);
        assert_ne!(nav.position(), 0);
    }
}

#[test]
fn retreat_from_the_first_entry_lands_on_the_last() {
    for count in [1usize, 2, 3, 5, 40] {
        let mut nav = gallery(count, Layout::Slide);
        assert_eq!(nav.retreat(), &format!("/media/{}.png", count - 1));
        assert_eq!(nav.position(), count - 1);
    }
}

#[test]
fn retreat_from_the_last_entry_stays_on_the_last() {
    let mut nav = at(5, 4);
    assert_eq!(nav.retreat(), "/media/4.png");
    assert_eq!(nav.position(), 4);
}

#[test]
fn in_bound_is_false_on_both_ends_only() {
    let count: usize = 6;
    for position in 0..count {
        let nav = at(count, position);
        assert_eq!(nav.in_bound(), position != 0 && position != count - 1);
    }
    assert!(!gallery(1, Layout::Slide).in_bound());
    assert!(!gallery(2, Layout::Slide).in_bound());
    assert!(!at(2, 1).in_bound());
}

#[test]
fn in_range_tells_whether_a_forward_move_fits() {
    let nav = at(10, 4);
    assert!(nav.in_range(0));
    assert!(nav.in_range(5));
    assert!(!nav.in_range(6));
    assert!(!nav.in_range(10));
    assert!(!nav.in_range(11));
    assert!(!nav.in_range(u16::MAX));
    let nav = gallery(10, Layout::Slide);
    assert!(nav.in_range(9));
    assert!(!nav.in_range(10));
    let nav = at(10, 9);
    assert!(nav.in_range(0));
    assert!(!nav.in_range(1));
}

#[test]
fn current_follows_the_cursor_through_any_moves() {
    let count: usize = 9;
    let list = names(count);
    let mut nav = gallery(count, Layout::Slide);
    let mut seed: u32 = 12345;
    for _ in 0..2000 {
        seed = seed.wrapping_mul(1103515245).wrapping_add(12345);
        let landed = match (seed >> 16) % 4 {
            0 => nav.advance().clone(),
            1 => nav.retreat().clone(),
            2 => nav.advance_by(((seed >> 8) % 12) as u16).clone(),
            _ => nav.retreat_by(((seed >> 8) % 12) as u16).clone(),
        };
        assert!(nav.position() < count);
        assert_eq!(nav.current(), &list[nav.position()]);
        assert_eq!(&landed, nav.current());
        assert_eq!(nav.paths(), &list);
    }
}

#[test]
fn a_single_path_is_returned_by_every_move() {
    let mut nav = gallery(1, Layout::Slide);
    for _ in 0..50 {
        assert_eq!(nav.advance(), "/media/0.png");
        assert_eq!(nav.position(), 0);
        assert_eq!(nav.retreat(), "/media/0.png");
        assert_eq!(nav.position(), 0);
    }
    for step in [0u16, 1, 2, 7, u16::MAX] {
        assert_eq!(nav.advance_by(step), "/media/0.png");
        assert_eq!(nav.retreat_by(step), "/media/0.png");
        assert_eq!(nav.position(), 0);
    }
    assert_eq!(nav.step(Trigger::Advance), "/media/0.png");
    assert_eq!(nav.step(Trigger::Retreat), "/media/0.png");
}

#[test]
fn advance_by_moves_an_interior_cursor_by_the_step() {
    let mut nav = at(10, 2);
    assert_eq!(nav.advance_by(3), "/media/5.png");
    assert_eq!(nav.position(), 5);
    assert_eq!(nav.advance_by(4), "/media/9.png");
    assert_eq!(nav.position(), 9);
    let mut nav = at(10, 3);
    assert_eq!(nav.advance_by(0), "/media/3.png");
    assert_eq!(nav.position(), 3);
}

#[test]
fn advance_by_jumps_to_the_second_entry_where_the_step_does_not_fit() {
    let mut nav = at(10, 8);
    assert_eq!(nav.advance_by(2), "/media/1.png");
    assert_eq!(nav.position(), 1);
    let mut nav = at(10, 5);
    assert_eq!(nav.advance_by(u16::MAX), "/media/1.png");
    let mut nav = gallery(10, Layout::Slide);
    assert_eq!(nav.advance_by(3), "/media/1.png");
    let mut nav = at(10, 9);
    assert_eq!(nav.advance_by(3), "/media/1.png");
    assert_eq!(nav.position(), 1);
}

#[test]
fn retreat_by_moves_an_interior_cursor_by_the_step() {
    let mut nav = at(10, 5);
    assert_eq!(nav.retreat_by(3), "/media/2.png");
    assert_eq!(nav.position(), 2);
    assert_eq!(nav.retreat_by(2), "/media/0.png");
    assert_eq!(nav.position(), 0);
    let mut nav = at(10, 3);
    assert_eq!(nav.retreat_by(0), "/media/3.png");
}

#[test]
fn retreat_by_jumps_to_the_last_entry_where_the_step_does_not_fit() {
    let mut nav = at(10, 2);
    assert_eq!(nav.retreat_by(3), "/media/9.png");
    assert_eq!(nav.position(), 9);
    let mut nav = gallery(10, Layout::Slide);
    assert_eq!(nav.retreat_by(1), "/media/9.png");
    let mut nav = at(10, 9);
    assert_eq!(nav.retreat_by(4), "/media/9.png");
    let mut nav = at(10, 5);
    assert_eq!(nav.retreat_by(u16::MAX), "/media/9.png");
}

#[test]
fn a_paged_move_of_one_is_the_single_step() {
    let count: usize = 6;
    for position in 0..count {
        let mut single = at(count, position);
        let mut paged = at(count, position);
        assert_eq!(single.advance().clone(), paged.advance_by(1).clone());
        let mut single = at(count, position);
        let mut paged = at(count, position);
        assert_eq!(single.retreat().clone(), paged.retreat_by(1).clone());
    }
}

#[test]
fn step_goes_the_way_of_the_trigger() {
    let mut nav = at(5, 2);
    assert_eq!(nav.step(Trigger::Advance), "/media/3.png");
    assert_eq!(nav.step(Trigger::Retreat), "/media/2.png");
    assert_eq!(nav.step(Trigger::Retreat), "/media/1.png");
}

#[test]
fn a_suspended_gallery_ignores_every_trigger() {
    for position in [0usize, 1, 3, 5] {
        let mut nav = at(6, position);
        nav.set_layout(Layout::Opt);
        let before = nav.paths().clone();
        for trigger in [Trigger::Advance, Trigger::Retreat, Trigger::Advance] {
            assert_eq!(nav.on_trigger(trigger), Action::Ignored);
            assert_eq!(nav.position(), position);
            assert_eq!(nav.paths(), &before);
            assert_eq!(nav.layout(), Layout::Opt);
        }
    }
}

#[test]
fn a_slide_accepts_a_trigger_and_changes_nothing() {
    let mut nav = at(6, 2);
    assert_eq!(nav.on_trigger(Trigger::Advance), Action::Idle);
    assert_eq!(nav.on_trigger(Trigger::Retreat), Action::Idle);
    assert_eq!(nav.position(), 2);
    assert_eq!(nav.paths(), &names(6));
}

#[test]
fn a_grid_reveals_one_batch_per_trigger() {
    let mut nav = gallery(5, Layout::Grid(3));
    let first = nav.on_trigger(Trigger::Advance);
    assert_eq!(
        first,
        Action::Reveal(vec![
            "/media/0.png".to_string(),
            "/media/1.png".to_string(),
            "/media/2.png".to_string(),
        ])
    );
    assert_eq!(nav.position(), 3);
    let second = nav.on_trigger(Trigger::Advance);
    assert_eq!(
        second,
        Action::Reveal(vec![
            "/media/3.png".to_string(),
            "/media/4.png".to_string(),
            "/media/1.png".to_string(),
        ])
    );
    assert_eq!(nav.position(), 2);
}

#[test]
fn a_grid_reveals_backwards_on_a_retreat() {
    let mut nav = at(6, 3);
    nav.set_layout(Layout::Grid(4));
    let shown = nav.on_trigger(Trigger::Retreat);
    assert_eq!(
        shown,
        Action::Reveal(vec![
            "/media/3.png".to_string(),
            "/media/2.png".to_string(),
            "/media/1.png".to_string(),
            "/media/0.png".to_string(),
        ])
    );
    assert_eq!(nav.position(), 5);
}

#[test]
fn a_grid_of_page_size_zero_reveals_nothing() {
    let mut nav = at(6, 2);
    nav.set_layout(Layout::Grid(0));
    assert_eq!(nav.on_trigger(Trigger::Advance), Action::Reveal(Vec::new()));
    assert_eq!(nav.position(), 2);
}

#[test]
fn set_layout_keeps_the_list_and_the_cursor() {
    let mut nav = at(6, 4);
    nav.set_layout(Layout::Grid(2));
    assert_eq!(nav.layout(), Layout::Grid(2));
    assert_eq!(nav.position(), 4);
    assert_eq!(nav.paths(), &names(6));
}
