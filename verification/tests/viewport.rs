use gem::pos::{data_idx, data_range, get_ranges, Pos, PosCol};
use gem::screen::{u16_or_0, DataScreen, DataScreenRange, Screen, ScreenRange};

fn axis() -> DataScreenRange {
    DataScreenRange { inner: ScreenRange { start: 2, end: 8 }, outer: ScreenRange { start: 0, end: 10 } }
}

#[test]
fn narrow_fits() {
    assert_eq!(u16_or_0(17), 17);
    assert_eq!(u16_or_0(65535), 65535);
    assert_eq!(u16_or_0(65536), 0);
}

#[test]
fn range_new_orders_its_ends() {
    assert_eq!(ScreenRange::new(7, 3), ScreenRange { start: 3, end: 7 });
    assert_eq!(ScreenRange::new(3, 7), ScreenRange { start: 3, end: 7 });
    assert_eq!(ScreenRange::new(3, 7).len(), 4);
    assert_eq!(ScreenRange { start: 7, end: 3 }.len(), 0);
    assert!(ScreenRange::new(3, 7).contains(7));
    assert!(!ScreenRange::new(3, 7).contains(8));
}

#[test]
fn range_from_length() {
    assert_eq!(ScreenRange::from_length(5, 10), ScreenRange { start: 5, end: 15 });
    assert_eq!(ScreenRange::from_length(5, 70000), ScreenRange { start: 5, end: 5 });
    assert_eq!(ScreenRange::from_length(65530, 10), ScreenRange { start: 65530, end: 65535 });
}

#[test]
fn max_scroll_is_what_does_not_fit() {
    let r = ScreenRange { start: 0, end: 10 };
    assert_eq!(r.get_max_scroll(30), 20);
    assert_eq!(r.get_max_scroll(10), 0);
    assert_eq!(r.get_max_scroll(4), 0);
    assert_eq!(r.get_data_end(30), 10);
    assert_eq!(r.get_data_end(4), 4);
}

#[test]
fn crop_takes_from_the_edges() {
    let s = Screen::origin(80, 24);
    assert_eq!(s.crop_south(4), Screen { x: 0, y: 0, w: 80, h: 20 });
    assert_eq!(s.crop_south(24), s);
    assert_eq!(s.crop_east(10), Screen { x: 0, y: 0, w: 70, h: 24 });
    assert_eq!(s.crop_north(2), Screen { x: 0, y: 2, w: 80, h: 22 });
    assert_eq!(s.crop_north(12), s);
    assert_eq!(s.crop_west(3), Screen { x: 3, y: 0, w: 77, h: 24 });
    assert_eq!(s.crop_y(2), Screen { x: 0, y: 2, w: 80, h: 20 });
    assert_eq!(s.crop_x(2), Screen { x: 2, y: 0, w: 76, h: 24 });
    assert_eq!(s.get_x_rng(), ScreenRange { start: 0, end: 80 });
    assert_eq!(s.get_y_rng(), ScreenRange { start: 0, end: 24 });
    assert_eq!(s.get_rngs(), (s.get_x_rng(), s.get_y_rng()));
}

#[test]
fn margin_comes_off_both_ends() {
    let d = DataScreen::new(&Screen::origin(80, 24), 3, 2);
    assert_eq!(d.get_x_rng().inner, ScreenRange { start: 3, end: 77 });
    assert_eq!(d.get_y_rng().inner, ScreenRange { start: 2, end: 22 });
    assert_eq!(d.get_x_rng().outer, ScreenRange { start: 0, end: 80 });
}

#[test]
fn margin_of_half_the_range_is_dropped() {
    let d = DataScreen::new(&Screen::origin(10, 10), 5, 4);
    assert_eq!(d.get_x_rng().inner, ScreenRange { start: 0, end: 10 });
    assert_eq!(d.get_y_rng().inner, ScreenRange { start: 4, end: 6 });
}

#[test]
fn full_step_lands_at_the_end() {
    let mut col = PosCol::origin(&axis().outer);
    assert!(col.move_forward(&axis(), 30, 30));
    assert_eq!(col, PosCol { cursor: 10, scroll: 20 });
    assert!(!col.move_forward(&axis(), 30, 1));
    assert_eq!(col, PosCol { cursor: 10, scroll: 20 });
}

#[test]
fn full_step_back_lands_at_the_start() {
    let mut col = PosCol { cursor: 10, scroll: 20 };
    assert!(col.move_backward(&axis(), 30));
    assert_eq!(col, PosCol { cursor: 0, scroll: 0 });
    assert!(!col.move_backward(&axis(), 1));
}

#[test]
fn forward_runs_cursor_then_scroll_then_cursor() {
    let mut col = PosCol { cursor: 0, scroll: 0 };
    col.move_forward(&axis(), 30, 3);
    assert_eq!(col, PosCol { cursor: 3, scroll: 0 });
    col.move_forward(&axis(), 30, 7);
    assert_eq!(col, PosCol { cursor: 8, scroll: 2 });
    col.move_forward(&axis(), 30, 17);
    assert_eq!(col, PosCol { cursor: 8, scroll: 19 });
    col.move_forward(&axis(), 30, 2);
    assert_eq!(col, PosCol { cursor: 9, scroll: 20 });
    assert_eq!(col.data_idx(&axis().outer), 29);
}

#[test]
fn backward_runs_cursor_then_scroll_then_cursor() {
    let mut col = PosCol { cursor: 10, scroll: 20 };
    col.move_backward(&axis(), 5);
    assert_eq!(col, PosCol { cursor: 5, scroll: 20 });
    col.move_backward(&axis(), 10);
    assert_eq!(col, PosCol { cursor: 2, scroll: 13 });
    col.move_backward(&axis(), 14);
    assert_eq!(col, PosCol { cursor: 1, scroll: 0 });
}

#[test]
fn step_of_zero_changes_nothing() {
    let mut col = PosCol { cursor: 4, scroll: 3 };
    assert!(!col.move_forward(&axis(), 30, 0));
    assert!(!col.move_backward(&axis(), 0));
    assert_eq!(col, PosCol { cursor: 4, scroll: 3 });
}

#[test]
fn data_that_fits_is_not_scrolled() {
    let mut col = PosCol::origin(&axis().outer);
    assert!(col.move_forward(&axis(), 4, 100));
    assert_eq!(col, PosCol { cursor: 4, scroll: 0 });
    assert!(col.move_backward(&axis(), 100));
    assert_eq!(col, PosCol { cursor: 0, scroll: 0 });
}

#[test]
fn moves_keep_the_state_valid() {
    let a = axis();
    for dlen in [0usize, 1, 5, 10, 11, 30] {
        let mut col = PosCol::origin(&a.outer);
        let mut idx = 0usize;
        for (i, step) in [3u16, 0, 9, 1, 40, 2, 7, 100, 5, 1].iter().enumerate() {
            if i % 3 == 2 {
                col.move_backward(&a, *step);
                idx = idx.saturating_sub(*step as usize);
            } else {
                col.move_forward(&a, dlen, *step);
                idx = (idx + *step as usize).min(dlen);
            }
            assert!(a.outer.start <= col.cursor && col.cursor <= a.outer.end);
            assert!(col.scroll <= a.get_max_scroll(dlen));
            assert_eq!(col.data_idx(&a.outer), idx);
        }
    }
}

#[test]
fn data_index_and_range() {
    let r = ScreenRange { start: 2, end: 12 };
    let col = PosCol { cursor: 5, scroll: 7 };
    assert_eq!(col.data_idx(&r), 10);
    assert_eq!(data_idx(&r, &col), 10);
    assert_eq!(col.data_idx_cap(&r, 8), 8);
    assert_eq!(PosCol { cursor: 2, scroll: 7 }.data_idx(&r), 7);
    assert_eq!(col.data_range(&r, 4), (0, 4));
    assert_eq!(col.data_range(&r, 30), (7, 17));
    assert_eq!(col.data_range(&r, 12), (7, 12));
    assert_eq!(data_range(&r, &col, 30), (7, 17));
}

#[test]
fn fit_shows_the_index() {
    let r = ScreenRange { start: 0, end: 10 };
    assert_eq!(PosCol::fit(&r, 3, 30), PosCol { cursor: 3, scroll: 0 });
    assert_eq!(PosCol::fit(&r, 25, 30), PosCol { cursor: 5, scroll: 20 });
    assert_eq!(PosCol::fit(&r, 15, 30), PosCol { cursor: 5, scroll: 10 });
    assert_eq!(PosCol::fit(&r, 99, 30), PosCol { cursor: 10, scroll: 20 });
    assert_eq!(PosCol::fit(&r, 3, 2), PosCol { cursor: 2, scroll: 0 });
}

#[test]
fn place_keeps_the_scroll_offset_where_it_can() {
    let r = ScreenRange { start: 0, end: 10 };
    assert_eq!(PosCol::place(&r, 15, 30, 10), PosCol { cursor: 5, scroll: 10 });
    assert_eq!(PosCol::place(&r, 15, 30, 0), PosCol { cursor: 10, scroll: 5 });
    assert_eq!(PosCol::place(&r, 15, 30, 20), PosCol { cursor: 0, scroll: 15 });
    assert_eq!(PosCol::place(&r, 3, 4, 9), PosCol { cursor: 3, scroll: 0 });
}

#[test]
fn resize_recentres_the_cursor() {
    let mut col = PosCol { cursor: 9, scroll: 25 };
    col.resize(&ScreenRange { start: 0, end: 20 }, 30);
    assert_eq!(col, PosCol { cursor: 10, scroll: 10 });
    let mut col = PosCol { cursor: 9, scroll: 25 };
    col.resize(&ScreenRange { start: 0, end: 20 }, 4);
    assert_eq!(col, PosCol { cursor: 4, scroll: 0 });
}

#[test]
fn move_into_keeps_the_cursor_on_a_shorter_row() {
    let mut col = PosCol { cursor: 9, scroll: 5 };
    col.move_into(&axis(), 4);
    assert_eq!(col, PosCol { cursor: 4, scroll: 0 });
    let mut col = PosCol { cursor: 9, scroll: 25 };
    col.move_into(&axis(), 30);
    assert_eq!(col, PosCol { cursor: 9, scroll: 20 });
    let mut col = PosCol { cursor: 12, scroll: 3 };
    col.move_into(&axis(), 30);
    assert_eq!(col, PosCol { cursor: 10, scroll: 3 });
}

#[test]
fn move_into_leaves_a_state_within_the_row_as_it_is() {
    for state in [
        PosCol { cursor: 9, scroll: 20 },
        PosCol { cursor: 10, scroll: 20 },
        PosCol { cursor: 0, scroll: 25 },
        PosCol { cursor: 0, scroll: 30 },
        PosCol { cursor: 5, scroll: 0 },
    ] {
        let mut col = state;
        assert!(col.is_within(&axis().outer, 30));
        col.move_into(&axis(), 30);
        assert_eq!(col, state);
    }
    let mut col = PosCol { cursor: 3, scroll: 0 };
    col.move_into(&axis(), 4);
    assert_eq!(col, PosCol { cursor: 3, scroll: 0 });
    assert!(!PosCol { cursor: 5, scroll: 0 }.is_within(&axis().outer, 4));
    assert!(!PosCol { cursor: 1, scroll: 1 }.is_within(&axis().outer, 4));
    assert!(!PosCol { cursor: 11, scroll: 0 }.is_within(&axis().outer, 30));
}

#[test]
fn forward_brings_a_cursor_past_the_data_back_onto_its_end() {
    let mut col = PosCol { cursor: 8, scroll: 0 };
    assert!(col.move_forward(&axis(), 5, 1));
    assert_eq!(col, PosCol { cursor: 5, scroll: 0 });
    assert!(!col.move_forward(&axis(), 5, 1));
    let mut col = PosCol { cursor: 10, scroll: 0 };
    assert!(col.move_forward(&axis(), 0, 7));
    assert_eq!(col, PosCol { cursor: 0, scroll: 0 });
}

#[test]
fn forward_starts_from_the_item_under_the_cursor() {
    let mut col = PosCol { cursor: 0, scroll: 25 };
    assert!(col.move_forward(&axis(), 30, 1));
    assert_eq!(col, PosCol { cursor: 6, scroll: 20 });
    let mut col = PosCol { cursor: 3, scroll: 40 };
    assert!(col.move_forward(&axis(), 30, 1));
    assert_eq!(col, PosCol { cursor: 10, scroll: 20 });
    let mut col = PosCol { cursor: 3, scroll: 40 };
    col.settle(&axis().outer, 30);
    assert_eq!(col, PosCol { cursor: 10, scroll: 20 });
}

#[test]
fn forward_is_false_only_at_the_end() {
    let a = axis();
    for dlen in [0usize, 3, 10, 11, 30] {
        let end = a.outer.get_data_end(dlen);
        let max = a.outer.get_max_scroll(dlen);
        for cursor in 0..=10u16 {
            for scroll in 0..=max {
                let old = PosCol { cursor, scroll };
                let i = scroll + cursor as usize;
                let mut col = old;
                let changed = col.move_forward(&a, dlen, 2);
                assert_eq!(changed, !(cursor == end && scroll == max));
                if changed {
                    assert_eq!(col.data_idx(&a.outer), (i + 2).min(max + end as usize));
                } else {
                    assert_eq!(col, old);
                }
                assert!(col.cursor <= end && col.scroll <= max);
            }
        }
    }
}

#[test]
fn pos_moves_over_rows_of_their_own_length() {
    let scr = DataScreen::new(&Screen::origin(10, 5), 0, 0);
    let rows: Vec<usize> = vec![8, 3, 20];
    let mut pos = Pos::origin(&scr.outer);
    assert!(pos.move_right(&scr, &rows, 6));
    assert_eq!(pos.x(), PosCol { cursor: 6, scroll: 0 });
    assert!(pos.move_down(&scr, &rows, 1));
    assert_eq!(pos.y(), PosCol { cursor: 1, scroll: 0 });
    assert_eq!(pos.x(), PosCol { cursor: 3, scroll: 0 });
    assert!(pos.move_down(&scr, &rows, 1));
    assert!(pos.move_right(&scr, &rows, 100));
    assert_eq!(pos.x(), PosCol { cursor: 10, scroll: 10 });
    assert!(pos.move_up(&scr, &rows, 2));
    assert_eq!(pos.y(), PosCol { cursor: 0, scroll: 0 });
    assert_eq!(pos.x(), PosCol { cursor: 8, scroll: 0 });
    assert!(pos.move_left(&scr, 3));
    assert_eq!(pos.x(), PosCol { cursor: 5, scroll: 0 });
    assert!(!pos.move_up(&scr, &rows, 1));
}

#[test]
fn pos_columns() {
    let x = PosCol { cursor: 1, scroll: 2 };
    let y = PosCol { cursor: 3, scroll: 4 };
    let mut pos = Pos::from_cols(&x, &y);
    assert_eq!(pos.get_cols(), (x, y));
    assert_eq!(pos.get_x_col(), x);
    assert_eq!(pos.get_y_col(), y);
    pos.set_x_col(&y);
    pos.set_y_col(&x);
    assert_eq!(pos.get_cols(), (y, x));
    let scr = DataScreen::new(&Screen::origin(10, 5), 0, 0);
    pos.move_into_y(&scr, &vec![1usize, 1]);
    assert_eq!(pos.y(), PosCol { cursor: 1, scroll: 0 });
    pos.move_into_x(&scr, &vec![1usize, 1]);
    assert_eq!(pos.x(), PosCol { cursor: 1, scroll: 0 });
}

#[test]
fn ranges_to_draw() {
    let scr = DataScreen::new(&Screen { x: 0, y: 2, w: 10, h: 3 }, 0, 0);
    let rows: Vec<usize> = vec![8, 3, 20, 5, 5];
    let pos = Pos { x: PosCol { cursor: 0, scroll: 4 }, y: PosCol { cursor: 2, scroll: 1 } };
    assert_eq!(
        get_ranges(&scr, &pos, &rows),
        vec![(2u16, 1usize, 0usize, 3usize), (3, 2, 4, 14), (4, 3, 0, 5)]
    );
}

#[test]
fn a_row_is_not_left_scrolled_past_its_end() {
    let scr = DataScreen::new(&Screen::origin(10, 5), 0, 0);
    let rows: Vec<usize> = vec![40, 32, 36];
    let mut pos = Pos::origin(&scr.outer);
    assert!(pos.move_right(&scr, &rows, 40));
    assert_eq!(pos.x(), PosCol { cursor: 10, scroll: 30 });
    assert!(pos.move_left(&scr, 8));
    assert_eq!(pos.x(), PosCol { cursor: 2, scroll: 30 });
    assert!(pos.move_down(&scr, &rows, 1));
    assert_eq!(pos.x(), PosCol { cursor: 10, scroll: 22 });
    assert_eq!(pos.x().data_idx(&scr.outer.get_x_rng()), 32);
    assert!(pos.move_down(&scr, &rows, 1));
    assert_eq!(pos.x(), PosCol { cursor: 10, scroll: 22 });
    assert!(pos.move_right(&scr, &rows, 1));
    assert_eq!(pos.x(), PosCol { cursor: 10, scroll: 23 });
}
