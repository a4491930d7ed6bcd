use lanchat_ui::layout::{split_frame, Rect};

#[test]
fn rectangle_on_the_grid_is_not_cut() {
    let area = Rect { x: 2, y: 3, width: 80, height: 24 };
    assert_eq!(area.clip(), area);
    let corner = Rect { x: 65535, y: 65535, width: 0, height: 0 };
    assert_eq!(corner.clip(), corner);
    let whole = Rect { x: 0, y: 0, width: 65535, height: 65535 };
    assert_eq!(whole.clip(), whole);
}

#[test]
fn rectangle_is_cut_at_the_edge_of_the_grid() {
    let wide = Rect { x: 65530, y: 0, width: 80, height: 24 };
    assert_eq!(wide.clip(), Rect { x: 65530, y: 0, width: 5, height: 24 });
    let high = Rect { x: 0, y: 65535, width: 80, height: 24 };
    assert_eq!(high.clip(), Rect { x: 0, y: 65535, width: 80, height: 0 });
    let both = Rect { x: 1, y: 1, width: 65535, height: 65535 };
    assert_eq!(both.clip(), Rect { x: 1, y: 1, width: 65534, height: 65534 });
}

#[test]
fn split_frame_puts_the_input_below_the_transcript() {
    for (x, y, width) in [(0u16, 0u16, 80u16), (3, 5, 17), (100, 200, 0), (65000, 65000, 500)] {
        for height in 0u16..=40 {
            let area = Rect { x, y, width, height };
            let (top, bottom) = split_frame(area);
            let input_rows = height.min(6);
            assert_eq!(top, Rect { x, y, width, height: height - input_rows });
            assert_eq!(
                bottom,
                Rect { x, y: y + height - input_rows, width, height: input_rows }
            );
        }
    }
}

#[test]
fn split_frame_gives_the_same_rows_each_time() {
    let area = Rect { x: 1, y: 2, width: 120, height: 50 };
    let first = split_frame(area);
    for _ in 0..20 {
        assert_eq!(split_frame(area), first);
    }
    assert_eq!(first.0, Rect { x: 1, y: 2, width: 120, height: 44 });
    assert_eq!(first.1, Rect { x: 1, y: 46, width: 120, height: 6 });
}
