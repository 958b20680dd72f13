use mandelbulb::{buffer_size, workgroup_counts, GPUVars, MAX_ITERATIONS, RENDER_HEIGHT, RENDER_WIDTH, WORKGROUP_SIZE};

#[test]
fn uniforms_for_the_viewer_image() {
    let vars = GPUVars::new(RENDER_WIDTH, RENDER_HEIGHT, MAX_ITERATIONS as u32);
    assert_eq!(vars.width, 1280);
    assert_eq!(vars.height, 768);
    assert_eq!(vars.max_iterations, 1000);
}

#[test]
fn uniforms_keep_low_32_bits() {
    if usize::BITS == 64 {
        let wide = ((1u64 << 32) + 5) as usize;
        let vars = GPUVars::new(wide, 7, 3);
        assert_eq!(vars.width, 5);
        assert_eq!(vars.height, 7);
    }
}

#[test]
fn viewer_image_is_whole_tiles() {
    assert_eq!(WORKGROUP_SIZE, 16);
    assert_eq!(RENDER_WIDTH % 16, 0);
    assert_eq!(RENDER_HEIGHT % 16, 0);
    assert_eq!(workgroup_counts(RENDER_WIDTH, RENDER_HEIGHT), (80, 48, 1));
}

#[test]
fn partial_tiles_are_not_dispatched() {
    assert_eq!(workgroup_counts(100, 25), (6, 1, 1));
    assert_eq!(workgroup_counts(15, 0), (0, 0, 1));
    assert_eq!(workgroup_counts(31, 33), (1, 2, 1));
}

#[test]
fn buffer_sizes() {
    assert_eq!(buffer_size(32, RENDER_WIDTH, RENDER_HEIGHT), 31_457_280);
    assert_eq!(buffer_size(12, 1, 1), 12);
    assert_eq!(buffer_size(32, 0, 5), 0);
}
