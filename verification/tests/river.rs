use river_raid::world::map::{passage_around, Passage, River, RiverMode};

#[test]
fn passage_knows_its_columns() {
    let passage = Passage { start: 3, end: 7 };
    assert!(!passage.contains(2));
    assert!(passage.contains(3));
    assert!(passage.contains(6));
    assert!(!passage.contains(7));
    assert!(!passage.is_empty());
    assert_eq!(passage.width(), 4);
    assert_eq!(passage.center(), 5);
    let closed = Passage { start: 7, end: 7 };
    assert!(closed.is_empty());
    assert!(!closed.contains(7));
    assert_eq!(closed.width(), 0);
    assert_eq!(closed.center(), 7);
    let crossed = Passage { start: 9, end: 3 };
    assert!(crossed.is_empty());
    assert_eq!(crossed.width(), 0);
    assert!(!crossed.contains(5));
    assert_eq!(Passage { start: 0, end: 65535 }.center(), 32767);
}

#[test]
fn passage_around_a_centre_is_cut_at_the_banks() {
    assert_eq!(passage_around(5, 20, 40), Passage { start: 18, end: 23 });
    assert_eq!(passage_around(6, 20, 40), Passage { start: 17, end: 23 });
    assert_eq!(passage_around(10, 2, 40), Passage { start: 0, end: 10 });
    assert_eq!(passage_around(10, 38, 40), Passage { start: 33, end: 40 });
    assert_eq!(passage_around(100, 20, 40), Passage { start: 0, end: 40 });
    assert_eq!(passage_around(4, 60, 40), Passage { start: 40, end: 40 });
    assert_eq!(passage_around(0, 20, 40), Passage { start: 20, end: 20 });
    assert_eq!(passage_around(5, 20, 0), Passage { start: 0, end: 0 });
    assert_eq!(passage_around(65535, 65535, 65535), Passage { start: 32768, end: 65535 });
}

#[test]
fn new_river_is_straight_down_the_middle() {
    let river = River::new(40, 4, 5, 12, 2, 5);
    assert_eq!(river.max_c(), 40);
    assert_eq!(river.max_l(), 4);
    let mut line = 0;
    while line < 4 {
        assert_eq!(river.river_borders_index(line), Passage { start: 14, end: 26 });
        line += 1;
    }
    assert_eq!(river.river_borders_index(4), Passage { start: 0, end: 0 });
    assert_eq!(river.river_borders_index(usize::MAX), Passage { start: 0, end: 0 });
    assert_eq!(
        river.river_mode(),
        RiverMode::Random { min_width: 5, max_width: 12, max_center_diff: 2, max_width_diff: 5 }
    );
}

#[test]
fn river_scrolls_line_by_line() {
    let mut river = River::new(40, 3, 5, 12, 2, 5);
    let a = Passage { start: 1, end: 2 };
    let b = Passage { start: 3, end: 4 };
    let c = Passage { start: 5, end: 6 };
    let d = Passage { start: 7, end: 8 };
    river.scroll_to(a);
    assert_eq!(river.river_borders_index(0), a);
    assert_eq!(river.river_borders_index(1), Passage { start: 14, end: 26 });
    river.scroll_to(b);
    river.scroll_to(c);
    assert_eq!(
        (river.river_borders_index(0), river.river_borders_index(1), river.river_borders_index(2)),
        (c, b, a)
    );
    river.scroll_to(d);
    assert_eq!(
        (river.river_borders_index(0), river.river_borders_index(1), river.river_borders_index(2)),
        (d, c, b)
    );
    let mut none = River::new(40, 0, 5, 12, 2, 5);
    none.scroll_to(a);
    none.update(&mut rand::thread_rng());
    assert_eq!(none.river_borders_index(0), Passage { start: 0, end: 0 });
}

#[test]
fn river_mode_changes_and_restores() {
    let mut river = River::new(40, 3, 5, 12, 2, 5);
    let wandering = river.river_mode();
    let fixed = RiverMode::ConstWidthAndCenter { width: 20, center_c: 20 };
    river.change_river_mode(fixed);
    assert_eq!(river.river_mode(), fixed);
    assert_eq!(river.shape_next(3, 3), Passage { start: 10, end: 30 });
    river.update(&mut rand::thread_rng());
    assert_eq!(river.river_borders_index(0), Passage { start: 10, end: 30 });
    river.change_river_mode(RiverMode::ConstWidthAndCenter { width: 2, center_c: 5 });
    river.update(&mut rand::thread_rng());
    assert_eq!(river.river_borders_index(0), Passage { start: 4, end: 6 });
    assert_eq!(river.river_borders_index(1), Passage { start: 10, end: 30 });
    river.restore_river_mode();
    assert_eq!(river.river_mode(), wandering);
    assert_eq!(river.shape_next(6, 9), Passage { start: 6, end: 12 });
    river.restore_river_mode();
    assert_eq!(river.river_mode(), wandering);
}

#[test]
fn wandering_river_keeps_within_its_limits() {
    let mut river = River::new(60, 5, 5, 20, 2, 5);
    let mut rounds = 0;
    let mut widths = Vec::new();
    while rounds < 500 {
        let previous = river.river_borders_index(0);
        river.update(&mut rand::thread_rng());
        let next = river.river_borders_index(0);
        assert_eq!(river.river_borders_index(1), previous);
        assert!(next.start <= next.end && next.end <= 60);
        assert!(5 <= next.width() && next.width() <= 20);
        let change = if next.width() > previous.width() {
            next.width() - previous.width()
        } else {
            previous.width() - next.width()
        };
        assert!(change <= 5);
        if !widths.contains(&next.width()) {
            widths.push(next.width());
        }
        rounds += 1;
    }
    assert!(widths.len() >= 2);
}
