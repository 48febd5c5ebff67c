use dmi_dir_splitter::layout::{Direction, PrefHolder};
use dmi_dir_splitter::names::{config_dir, derive_state_name, trim_path_before_last_slash};
use dmi_dir_splitter::raster::{extract_four_dir_images, Raster, Rgba};
use dmi_dir_splitter::state::{
    build_icon_state, process_image, CentiDelay, Frame, FrameDelay, RawImg, SplitError,
};

fn raster_from(width: u32, height: u32, f: impl Fn(u32, u32) -> Rgba) -> Raster {
    let rows = (0..height)
        .map(|y| (0..width).map(|x| f(x, y)).collect())
        .collect();
    Raster { width, height, rows }
}

fn solid(width: u32, height: u32, c: Rgba) -> Raster {
    raster_from(width, height, |_, _| c)
}

fn layout(step: u32, origins: [(u32, u32); 4]) -> PrefHolder {
    // origins in the order north, east, south, west
    PrefHolder {
        x_step: step,
        y_step: step,
        north_start_x: origins[0].0,
        north_start_y: origins[0].1,
        east_start_x: origins[1].0,
        east_start_y: origins[1].1,
        south_start_x: origins[2].0,
        south_start_y: origins[2].1,
        west_start_x: origins[3].0,
        west_start_y: origins[3].1,
    }
}

fn mismatch_layout() -> PrefHolder {
    layout(32, [(0, 0), (0, 0), (32, 0), (0, 0)])
}

const RED: Rgba = [255, 0, 0, 255];
const GREEN: Rgba = [0, 255, 0, 255];
const BLUE: Rgba = [0, 0, 255, 255];
const CLEAR: Rgba = [0, 0, 0, 0];

fn quadrants() -> Raster {
    // 64 by 64: north top-left red, east top-right green,
    // south bottom-left blue, west bottom-right clear
    raster_from(64, 64, |x, y| match (x < 32, y < 32) {
        (true, true) => RED,
        (false, true) => GREEN,
        (true, false) => BLUE,
        (false, false) => CLEAR,
    })
}

fn quadrant_layout() -> PrefHolder {
    layout(32, [(0, 0), (32, 0), (0, 32), (32, 32)])
}

fn to_f32(d: &CentiDelay) -> f32 {
    d.numer as f32 / d.denom as f32
}

#[test]
fn validate_accepts_exact_fit_and_rejects_one_short() {
    let l = quadrant_layout();
    assert!(l.validate(64, 64));
    assert!(l.validate(100, 70));
    assert!(!l.validate(63, 64));
    assert!(!l.validate(64, 63));
    assert_eq!(l.required_size(), (64, 64));
}

#[test]
fn validate_with_zero_origins() {
    let l = layout(8, [(0, 0); 4]);
    assert!(l.validate(8, 8));
    assert!(!l.validate(7, 8));
    assert!(!l.validate(0, 0));
}

#[test]
fn validate_large_values_do_not_overflow() {
    let l = layout(u32::MAX, [(u32::MAX, 0), (0, 0), (0, 0), (0, 0)]);
    assert_eq!(l.required_size(), (2 * u32::MAX as u64, u32::MAX as u64));
    assert!(!l.validate(u32::MAX, u32::MAX));
}

#[test]
fn skip_on_mismatch() {
    let l = mismatch_layout();
    assert_eq!(l.required_size(), (64, 32));
    assert!(!l.validate(48, 32));
    let r = process_image(RawImg::Png(solid(48, 32, RED)), "img.png", &l);
    assert_eq!(
        r.unwrap_err(),
        SplitError::DimensionMismatch { width: 48, height: 32, required_width: 64, required_height: 32 }
    );
}

#[test]
fn static_success_two_halves() {
    let l = mismatch_layout();
    let img = raster_from(64, 32, |x, _| if x < 32 { RED } else { GREEN });
    assert!(l.validate(64, 32));
    let rec = process_image(RawImg::Png(img), "dir/sheet.png", &l).unwrap();
    assert_eq!(rec.name, "sheet");
    assert_eq!(rec.dirs, 4);
    assert_eq!(rec.frames, 1);
    assert!(rec.delay.is_none());
    let colours: Vec<Rgba> = rec.images.iter().map(|r| r.rows[0][0]).collect();
    // south, north, east, west
    assert_eq!(colours, vec![GREEN, RED, RED, RED]);
    for r in &rec.images {
        assert_eq!((r.width, r.height), (32, 32));
        assert!(r.is_well_formed());
    }
}

#[test]
fn static_success_four_quadrants_in_order() {
    let src = quadrants();
    let rec = build_icon_state(RawImg::Png(src.clone()), "q".to_string(), &quadrant_layout()).unwrap();
    assert_eq!(rec.images.len(), 4);
    let expected = [
        src.crop(0, 32, 32, 32),  // south
        src.crop(0, 0, 32, 32),   // north
        src.crop(32, 0, 32, 32),  // east
        src.crop(32, 32, 32, 32), // west
    ];
    for (got, want) in rec.images.iter().zip(expected.iter()) {
        assert_eq!(got.rows, want.rows);
    }
    assert_eq!(rec.images[0].rows, solid(32, 32, BLUE).rows);
    assert_eq!(rec.images[1].rows, solid(32, 32, RED).rows);
    assert_eq!(rec.images[2].rows, solid(32, 32, GREEN).rows);
    assert_eq!(rec.images[3].rows, solid(32, 32, CLEAR).rows);
}

#[test]
fn crop_copies_exact_pixels() {
    let src = raster_from(5, 4, |x, y| [x as u8, y as u8, 7, 9]);
    let c = src.crop(1, 2, 3, 2);
    assert_eq!((c.width, c.height), (3, 2));
    assert_eq!(c.rows, vec![
        vec![[1, 2, 7, 9], [2, 2, 7, 9], [3, 2, 7, 9]],
        vec![[1, 3, 7, 9], [2, 3, 7, 9], [3, 3, 7, 9]],
    ]);
    let d = src.crop_direction(&layout(2, [(3, 2), (0, 0), (0, 0), (0, 0)]), Direction::North);
    assert_eq!(d.rows, vec![vec![[3, 2, 7, 9], [4, 2, 7, 9]], vec![[3, 3, 7, 9], [4, 3, 7, 9]]]);
}

#[test]
fn extract_gives_south_north_east_west() {
    let src = quadrants();
    let out = extract_four_dir_images(&src, &quadrant_layout());
    let colours: Vec<Rgba> = out.iter().map(|r| r.rows[31][31]).collect();
    assert_eq!(colours, vec![BLUE, RED, GREEN, CLEAR]);
}

#[test]
fn well_formed_check() {
    assert!(solid(3, 2, RED).is_well_formed());
    let bad = Raster { width: 3, height: 2, rows: vec![vec![RED; 3], vec![RED; 2]] };
    assert!(!bad.is_well_formed());
    let short = Raster { width: 1, height: 2, rows: vec![vec![RED]] };
    assert!(!short.is_well_formed());
}

fn frame(img: Raster, ms: u32) -> Frame {
    Frame { image: img, delay: FrameDelay { numer_ms: ms, denom_ms: 1 } }
}

#[test]
fn animated_success() {
    let l = mismatch_layout();
    let frames = vec![
        frame(raster_from(64, 32, |x, _| if x < 32 { RED } else { GREEN }), 100),
        frame(raster_from(64, 32, |x, _| if x < 32 { GREEN } else { BLUE }), 200),
        frame(raster_from(64, 32, |x, _| if x < 32 { BLUE } else { CLEAR }), 300),
    ];
    let rec = process_image(RawImg::Gif(frames), "anim.gif", &l).unwrap();
    assert_eq!(rec.name, "anim");
    assert_eq!(rec.frames, 3);
    assert_eq!(rec.images.len(), 12);
    let delays: Vec<f32> = rec.delay.as_ref().unwrap().iter().map(to_f32).collect();
    assert_eq!(delays, vec![10.0, 20.0, 30.0]);
    let colours: Vec<Rgba> = rec.images.iter().map(|r| r.rows[0][0]).collect();
    assert_eq!(colours, vec![
        GREEN, RED, RED, RED, BLUE, GREEN, GREEN, GREEN, CLEAR, BLUE, BLUE, BLUE,
    ]);
}

#[test]
fn single_frame_animation_keeps_its_delay() {
    let rec = build_icon_state(
        RawImg::Gif(vec![frame(quadrants(), 40)]),
        "one".to_string(),
        &quadrant_layout(),
    )
    .unwrap();
    assert_eq!(rec.frames, 1);
    assert_eq!(rec.images.len(), 4);
    assert_eq!(rec.delay, Some(vec![CentiDelay { numer: 40, denom: 10 }]));
}

#[test]
fn empty_animation() {
    let l = mismatch_layout();
    let r = process_image(RawImg::Gif(vec![]), "e.gif", &l);
    assert_eq!(r.unwrap_err(), SplitError::EmptyAnimation);
    assert_eq!(RawImg::Gif(vec![]).dimensions(), Err(SplitError::EmptyAnimation));
    let b = build_icon_state(RawImg::Gif(vec![]), "e".to_string(), &l);
    assert_eq!(b.unwrap_err(), SplitError::EmptyAnimation);
    // the next image is unaffected
    let ok = process_image(RawImg::Png(solid(64, 32, RED)), "f.png", &l);
    assert!(ok.is_ok());
}

#[test]
fn odd_frame_size_is_a_mismatch() {
    let l = mismatch_layout();
    let frames = vec![frame(solid(64, 32, RED), 10), frame(solid(64, 32, RED), 10), frame(solid(70, 32, RED), 10)];
    let r = process_image(RawImg::Gif(frames), "odd.gif", &l);
    assert_eq!(
        r.unwrap_err(),
        SplitError::DimensionMismatch { width: 70, height: 32, required_width: 64, required_height: 32 }
    );
}

#[test]
fn dimensions_of_first_frame() {
    assert_eq!(RawImg::Png(solid(3, 5, RED)).dimensions(), Ok((3, 5)));
    let g = RawImg::Gif(vec![frame(solid(6, 2, RED), 1), frame(solid(9, 9, RED), 1)]);
    assert_eq!(g.dimensions(), Ok((6, 2)));
}

#[test]
fn delay_conversion() {
    let a = FrameDelay { numer_ms: 250, denom_ms: 1 }.to_centiseconds();
    assert_eq!(a, CentiDelay { numer: 250, denom: 10 });
    assert_eq!(to_f32(&a), 25.0);
    let b = FrameDelay { numer_ms: 33, denom_ms: 1 }.to_centiseconds();
    assert_eq!(to_f32(&b), 3.3);
    let c = FrameDelay { numer_ms: 100, denom_ms: 3 }.to_centiseconds();
    assert_eq!(c, CentiDelay { numer: 100, denom: 30 });
}

#[test]
fn name_derivation() {
    assert_eq!(derive_state_name("a/b/c.png"), "c");
    assert_eq!(derive_state_name("x.y.gif"), "x");
    assert_eq!(derive_state_name("noext"), "noext");
    assert_eq!(derive_state_name(""), "");
    assert_eq!(derive_state_name("v1.2.png"), "v1");
    assert_eq!(derive_state_name("C:\\sprites\\mob.png"), "mob");
    assert_eq!(derive_state_name("./dir/walk.gif"), "");
}

#[test]
fn trim_keeps_last_component() {
    assert_eq!(trim_path_before_last_slash("a/b\\c".to_string()), "c");
    assert_eq!(trim_path_before_last_slash("plain".to_string()), "plain");
    assert_eq!(trim_path_before_last_slash("ends/".to_string()), "");
    assert_eq!(trim_path_before_last_slash(String::new()), "");
}

#[test]
fn config_dir_of_paths() {
    assert_eq!(config_dir("/usr/bin/tool"), "/usr/bin");
    assert_eq!(config_dir("C:\\tools\\tool.exe"), "C:\\tools");
    assert_eq!(config_dir("tool"), ".");
    assert_eq!(config_dir("/tool"), "");
}
