use rolf_preview::gate::DisplayGate;
use rolf_preview::protocol::{frame_command, graphics_command_for_path, push_decimal};
use rolf_preview::scaling::{fit_to_region, pixel_bound, CellFit, ScaleError};

#[test]
fn fit_clamps_to_region_right_of_origin() {
    let r = fit_to_region((2000, 1000), (80, 24), (800, 480), 40).unwrap();
    assert!(r.width_cells <= 38);
    assert!(r.height_cells <= 22);
    assert_eq!(r, CellFit { width_cells: 38, height_cells: 9, rescale_needed: true });
}

#[test]
fn fit_zero_window_is_refused() {
    assert_eq!(fit_to_region((2000, 1000), (80, 24), (0, 0), 40), Err(ScaleError::ZeroWindowPixels));
    assert_eq!(fit_to_region((10, 10), (80, 24), (0, 480), 0), Err(ScaleError::ZeroWindowPixels));
    assert_eq!(fit_to_region((10, 10), (80, 24), (800, 0), 0), Err(ScaleError::ZeroWindowPixels));
}

#[test]
fn fit_small_image_keeps_natural_size() {
    let r = fit_to_region((400, 200), (80, 24), (800, 480), 40).unwrap();
    assert_eq!(r, CellFit { width_cells: 40, height_cells: 10, rescale_needed: false });
}

#[test]
fn fit_tiny_image_is_zero_cells() {
    let r = fit_to_region((4, 4), (100, 40), (1000, 400), 50).unwrap();
    assert_eq!(r, CellFit { width_cells: 0, height_cells: 0, rescale_needed: false });
}

#[test]
fn fit_halves_a_tall_image() {
    let r = fit_to_region((60, 100), (80, 24), (80, 24), 0).unwrap();
    assert_eq!(r, CellFit { width_cells: 30, height_cells: 50, rescale_needed: true });
}

#[test]
fn fit_origin_past_the_edge() {
    let r = fit_to_region((100, 10), (80, 24), (80, 24), 79).unwrap();
    assert_eq!(r, CellFit { width_cells: 0, height_cells: 0, rescale_needed: true });
}

#[test]
fn fit_is_stable_at_one_pixel_per_cell() {
    let geometry = (80u16, 24u16);
    let first = fit_to_region((200, 30), geometry, geometry, 10).unwrap();
    assert_eq!(first, CellFit { width_cells: 68, height_cells: 10, rescale_needed: true });
    let again = fit_to_region(
        (first.width_cells as u32, first.height_cells as u32),
        geometry,
        geometry,
        10,
    )
    .unwrap();
    assert_eq!(again.width_cells, first.width_cells);
    assert_eq!(again.height_cells, first.height_cells);
    assert!(!again.rescale_needed);
}

#[test]
fn pixel_bound_inverts_the_ratio() {
    let fit = CellFit { width_cells: 38, height_cells: 9, rescale_needed: true };
    assert_eq!(pixel_bound(fit, (80, 24), (800, 480)), Ok((380, 180)));
    assert_eq!(pixel_bound(fit, (0, 24), (800, 480)), Err(ScaleError::ZeroTerminalCells));
    let huge = CellFit { width_cells: u64::MAX, height_cells: 1, rescale_needed: true };
    assert_eq!(pixel_bound(huge, (1, 1), (2, 3)), Ok((u32::MAX, 3)));
}

#[test]
fn decimal_digits() {
    let mut v = b"n=".to_vec();
    push_decimal(&mut v, 0);
    assert_eq!(v, b"n=0".to_vec());
    let mut v = Vec::new();
    push_decimal(&mut v, 4294967295);
    assert_eq!(v, b"4294967295".to_vec());
}

#[test]
fn frame_command_layout() {
    let c = frame_command(380, 18, b"L3Rt");
    assert_eq!(c, b"\x1b_Gf=32,s=380,v=18,a=T,t=t;L3Rt\x1b\\".to_vec());
}

#[test]
fn command_carries_base64_path() {
    let c = graphics_command_for_path(4, 4, b"/tmp/.tmp.rolfA");
    assert_eq!(c, b"\x1b_Gf=32,s=4,v=4,a=T,t=t;L3RtcC8udG1wLnJvbGZB\x1b\\".to_vec());
    let c = graphics_command_for_path(1, 2, b"ab");
    assert_eq!(c, b"\x1b_Gf=32,s=1,v=2,a=T,t=t;YWI=\x1b\\".to_vec());
}

#[test]
fn gate_starts_open_and_passes_the_frame() {
    let g = DisplayGate::new();
    assert!(g.is_display_allowed());
    assert_eq!(g.gated(b"abc".to_vec()), b"abc".to_vec());
}

#[test]
fn cleared_gate_writes_nothing() {
    let mut g = DisplayGate::new();
    let frame = graphics_command_for_path(4, 4, b"/tmp/x");
    g.set_display_allowed(false);
    assert!(!g.is_display_allowed());
    assert!(g.gated(frame).is_empty());
}
