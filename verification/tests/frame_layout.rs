use mandelbulb::{blank_pixels, paint_rays, screen_coords, MyAppState, RayOutput, RENDER_HEIGHT, RENDER_WIDTH};

#[test]
fn blank_is_transparent_black() {
    let pixels = blank_pixels(3, 2);
    assert_eq!(pixels.len(), 24);
    assert!(pixels.iter().all(|&b| b == 0));
    assert!(blank_pixels(0, 9).is_empty());
}

#[test]
fn rays_are_cast_row_by_row() {
    assert_eq!(
        screen_coords(3, 2),
        vec![(0, 0), (1, 0), (2, 0), (0, 1), (1, 1), (2, 1)]
    );
    assert!(screen_coords(0, 4).is_empty());
    assert!(screen_coords(4, 0).is_empty());
}

#[test]
fn painting_hits_and_misses() {
    let rays = vec![
        RayOutput { did_hit: 1, iters: 3 },
        RayOutput { did_hit: 0, iters: 9 },
        RayOutput { did_hit: 2, iters: 1 },
        RayOutput { did_hit: 0, iters: 0 },
    ];
    let colours = vec![(10, 20, 30), (40, 50, 60), (70, 80, 90), (1, 2, 3)];
    let mut pixels = blank_pixels(2, 2);
    paint_rays(&mut pixels, &rays, &colours, 2, 2);
    assert_eq!(
        pixels,
        vec![
            10, 20, 30, 255, 0, 0, 0, 255, //
            70, 80, 90, 255, 0, 0, 0, 255,
        ]
    );
}

#[test]
fn ray_lands_on_its_screen_pixel() {
    let width = 3;
    let height = 2;
    let coords = screen_coords(width, height);
    let rays: Vec<RayOutput> = (0..6).map(|_| RayOutput { did_hit: 1, iters: 0 }).collect();
    let colours: Vec<(u8, u8, u8)> = (0..6u8).map(|i| (i, i + 100, i + 200)).collect();
    let mut pixels = blank_pixels(width, height);
    paint_rays(&mut pixels, &rays, &colours, width, height);
    for (i, &(x, y)) in coords.iter().enumerate() {
        let at = 4 * width * y + 4 * x;
        assert_eq!(&pixels[at..at + 4], &[colours[i].0, colours[i].1, colours[i].2, 255]);
    }
}

#[test]
fn extra_rays_are_ignored() {
    let rays = vec![RayOutput { did_hit: 1, iters: 2 }, RayOutput { did_hit: 1, iters: 2 }];
    let colours = vec![(5, 6, 7), (8, 9, 10)];
    let mut pixels = blank_pixels(1, 1);
    paint_rays(&mut pixels, &rays, &colours, 1, 1);
    assert_eq!(pixels, vec![5, 6, 7, 255]);
}

#[test]
fn fresh_viewer_image_is_blank() {
    assert_eq!(MyAppState::initial(), MyAppState::NeedsUpdate);
    let pixels = blank_pixels(RENDER_WIDTH, RENDER_HEIGHT);
    assert_eq!(pixels.len(), 1280 * 768 * 4);
    assert!(pixels.iter().all(|&b| b == 0));
}

#[test]
fn extra_colours_are_ignored() {
    let rays = vec![RayOutput { did_hit: 1, iters: 2 }];
    let colours = vec![(5, 6, 7), (8, 9, 10), (11, 12, 13)];
    let mut pixels = blank_pixels(1, 1);
    paint_rays(&mut pixels, &rays, &colours, 1, 1);
    assert_eq!(pixels, vec![5, 6, 7, 255]);
}
