use mat_ctrl::grid::{axis_name, cell, cell_index, component_name, is_diagonal, GRID_CELLS};
use mat_ctrl::settings::{
    frames_between, next_scale, ScaleKeys, WndState, SCALE_MAX, SCALE_MIN, SCALE_RESET,
};

fn label(id: usize) -> String {
    let (a, c) = cell(id);
    format!("{}.{}", axis_name(a), component_name(c))
}

#[test]
fn grid_labels_row_by_row() {
    let labels: Vec<String> = (0..GRID_CELLS).map(label).collect();
    let expected = vec![
        "x_axis.x", "x_axis.y", "x_axis.z", "w_axis.x", "y_axis.x", "y_axis.y", "y_axis.z",
        "w_axis.y", "z_axis.x", "z_axis.y", "z_axis.z", "w_axis.z", "x_axis.w", "y_axis.w",
        "z_axis.w", "w_axis.w",
    ];
    assert_eq!(labels, expected);
}

#[test]
fn grid_indices_cover_matrix_once() {
    let mut seen = [false; 16];
    for id in 0..GRID_CELLS {
        let i = cell_index(id);
        assert!(!seen[i]);
        seen[i] = true;
    }
    assert!(seen.iter().all(|b| *b));
    assert_eq!(cell_index(3), 12);
    assert_eq!(cell_index(12), 3);
    assert_eq!(cell_index(5), 5);
}

#[test]
fn diagonal_controls() {
    let diag: Vec<usize> = (0..GRID_CELLS).filter(|i| is_diagonal(*i)).collect();
    assert_eq!(diag, vec![0, 5, 10, 15]);
}

#[test]
fn windows_start_open() {
    let w = WndState::default();
    assert!(w.is_open_help_wnd && w.is_open_ctrl_wnd && w.is_open_status_wnd);
}

fn keys(ctrl: bool, grow: bool, reset: bool, shrink: bool) -> ScaleKeys {
    ScaleKeys { ctrl, grow, reset, shrink }
}

#[test]
fn scale_needs_control_key() {
    assert_eq!(next_scale(100, keys(false, true, true, true)), 100);
    assert_eq!(next_scale(100, keys(true, false, false, false)), 100);
}

#[test]
fn scale_steps_and_clamps() {
    assert_eq!(next_scale(100, keys(true, true, false, false)), 120);
    assert_eq!(next_scale(100, keys(true, false, false, true)), 80);
    assert_eq!(next_scale(340, keys(true, true, false, false)), SCALE_MAX);
    assert_eq!(next_scale(60, keys(true, false, false, true)), SCALE_MIN);
    assert_eq!(next_scale(50, keys(true, false, false, true)), 50);
    assert_eq!(next_scale(u32::MAX, keys(true, true, false, false)), SCALE_MAX);
    assert_eq!(next_scale(0, keys(true, false, false, true)), SCALE_MIN);
}

#[test]
fn scale_reset_then_shrink() {
    assert_eq!(next_scale(300, keys(true, false, true, false)), SCALE_RESET);
    // Growing, resetting and shrinking in one frame apply in that order.
    assert_eq!(next_scale(300, keys(true, true, true, true)), 100);
}

#[test]
fn frame_counts_wrap() {
    assert_eq!(frames_between(10, 25), 15);
    assert_eq!(frames_between(7, 7), 0);
    assert_eq!(frames_between(u32::MAX, 2), 3);
}
