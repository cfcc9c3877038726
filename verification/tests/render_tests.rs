use terminal_invaders::frame::new_frame;
use terminal_invaders::render::render;

#[test]
fn identical_frames_write_nothing() {
    let dims = vec![4u16, 3u16];
    let last = new_frame(&dims);
    let curr = new_frame(&dims);
    let plan = render(&last, &curr, false);
    assert_eq!(plan.len(), 0);
}

#[test]
fn force_writes_every_cell_exactly_once() {
    let dims = vec![4u16, 3u16];
    let last = new_frame(&dims);
    let mut curr = new_frame(&dims);
    curr[1][2] = "x".to_string();
    let plan = render(&last, &curr, true);
    // Twelve cells, twelve writes, in column-major order, no repeats.
    assert_eq!(plan.len(), 12);
    let mut expected: Vec<(u16, u16)> = Vec::new();
    for x in 0..4u16 {
        for y in 0..3u16 {
            expected.push((x, y));
        }
    }
    let got: Vec<(u16, u16)> = plan.iter().map(|w| (w.x, w.y)).collect();
    assert_eq!(got, expected);
    for w in plan.iter() {
        let want = if (w.x, w.y) == (1, 2) { "x" } else { " " };
        assert_eq!(w.glyph, want);
    }
}

#[test]
fn a_single_change_issues_a_single_write() {
    let dims = vec![5u16, 4u16];
    let last = new_frame(&dims);
    let mut curr = new_frame(&dims);
    curr[3][1] = "o".to_string();
    let plan = render(&last, &curr, false);
    assert_eq!(plan.len(), 1);
    assert_eq!((plan[0].x, plan[0].y), (3, 1));
    assert_eq!(plan[0].glyph, "o");
}

#[test]
fn only_changed_cells_are_written() {
    let dims = vec![3u16, 3u16];
    let mut last = new_frame(&dims);
    let mut curr = new_frame(&dims);
    last[0][0] = "a".to_string();
    curr[0][0] = "a".to_string();
    curr[2][2] = "b".to_string();
    curr[1][0] = "c".to_string();
    let plan = render(&last, &curr, false);
    let got: Vec<(u16, u16)> = plan.iter().map(|w| (w.x, w.y)).collect();
    // Two changed cells, reported in column-major order.
    assert_eq!(got, vec![(1, 0), (2, 2)]);
    assert_eq!(plan[0].glyph, "c");
    assert_eq!(plan[1].glyph, "b");
}
