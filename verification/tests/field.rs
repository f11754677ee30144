use nannou::image::GenericImageView;
use nannou::noise::{BasicMulti, NoiseFn, Seedable};
use sketchbook::canvas::{channel, color_byte, covers, sample_points, Canvas, Paint};
use sketchbook::field::{lch, Lch, Model, RedrawError, NOISE_STEP};
use sketchbook::seed::seed_from_token;
use sketchbook::settings::{Settings, UNIT};
use sketchbook::source::{noise_from_token, seeded_noise};

fn fixed(x: f64) -> i32 {
    (x * UNIT as f64).round() as i32
}

fn float(x: i32) -> f64 {
    x as f64 / UNIT as f64
}

fn readings(noise: &BasicMulti, width: u32, height: u32) -> Vec<i32> {
    let mut values = Vec::new();
    for (x, y) in sample_points(width, height) {
        let at = [x as f64 / NOISE_STEP as f64, y as f64 / NOISE_STEP as f64];
        values.push(fixed(noise.get(at)));
    }
    values
}

fn convert(color: &Lch) -> (i32, i32, i32) {
    let lch = nannou::color::Lch::new(float(color.lightness), float(color.chroma), float(color.hue));
    let rgb: nannou::color::Rgb<f64> = nannou::color::rgb::Rgb::from(lch);
    let (r, g, b) = rgb.into_components();
    (fixed(r), fixed(g), fixed(b))
}

fn paint_for(model: &Model, noise: &BasicMulti, width: u32, height: u32) -> Paint {
    let values = readings(noise, width, height);
    if model.settings().grayscale() {
        Paint::Readings(values)
    } else {
        Paint::Colors(model.hues(&values).iter().map(convert).collect())
    }
}

fn tick(model: &mut Model, width: u32, height: u32) -> bool {
    assert!(Canvas::fits(width, height));
    if model.needs_repaint(width, height) {
        let paint = paint_for(model, model.noise(), width, height);
        model.update(width, height, &paint).unwrap()
    } else {
        false
    }
}

fn gray(model: &Model) -> Settings {
    let settings = model.settings();
    Settings::new(
        settings.lightness(),
        settings.chroma(),
        settings.hue_center(),
        settings.hue_range(),
        true,
    )
}

#[test]
fn channel_takes_minus_one_to_black_and_one_to_white() {
    assert_eq!(channel(-UNIT), 0);
    assert_eq!(channel(UNIT), 255);
    assert_eq!(channel(0), 127);
    assert_eq!(channel(1), 127);
    assert_eq!(channel(257), 127);
    assert_eq!(channel(258), 128);
    assert_eq!(channel(UNIT - 1), 254);
    assert_eq!(channel(-UNIT + 1), 0);
    assert_eq!(channel(UNIT / 2), 191);
}

#[test]
fn channel_is_held_to_a_byte() {
    assert_eq!(channel(UNIT + 1), 255);
    assert_eq!(channel(2 * UNIT), 255);
    assert_eq!(channel(i32::MAX), 255);
    assert_eq!(channel(-UNIT - 1), 0);
    assert_eq!(channel(-2 * UNIT), 0);
    assert_eq!(channel(i32::MIN), 0);
}

#[test]
fn color_byte_takes_zero_to_black_and_one_to_full() {
    assert_eq!(color_byte(0), 0);
    assert_eq!(color_byte(UNIT), 255);
    assert_eq!(color_byte(UNIT / 2), 127);
    assert_eq!(color_byte(UNIT / 4), 63);
    assert_eq!(color_byte(257), 0);
    assert_eq!(color_byte(258), 1);
    assert_eq!(color_byte(UNIT - 1), 254);
    assert_eq!(color_byte(59_723), 232);
}

#[test]
fn color_byte_is_held_to_a_byte() {
    assert_eq!(color_byte(-1), 0);
    assert_eq!(color_byte(-UNIT), 0);
    assert_eq!(color_byte(i32::MIN), 0);
    assert_eq!(color_byte(UNIT + 1), 255);
    assert_eq!(color_byte(3 * UNIT), 255);
    assert_eq!(color_byte(i32::MAX), 255);
}

#[test]
fn new_model_has_default_settings_and_a_small_black_canvas() {
    let model = Model::new(None);
    assert_eq!(model.settings(), Settings::default());
    assert!(!model.should_redraw());
    assert_eq!(model.seed(), 0);
    assert_eq!(model.canvas().width(), 10);
    assert_eq!(model.canvas().height(), 10);
    assert_eq!(model.canvas().image().dimensions(), (10, 10));
    for x in 0..10 {
        for y in 0..10 {
            assert_eq!(model.canvas().pixel(x, y), Some((0, 0, 0)));
        }
    }
    assert_eq!(model.canvas().pixel(10, 0), None);
    assert_eq!(model.canvas().pixel(0, 10), None);
    assert!(!model.needs_repaint(10, 10));
    assert!(model.needs_repaint(10, 11));
    assert!(model.needs_repaint(9, 10));
}

#[test]
fn new_model_keeps_a_given_source() {
    let model = Model::new(Some(seeded_noise(77)));
    assert_eq!(model.seed(), 77);
    assert_eq!(model.noise().seed(), 77);
}

#[test]
fn sample_points_run_down_each_column_in_turn() {
    let canvas = Canvas::new(2, 3);
    assert_eq!(canvas.sample_points(), vec![(0, 0), (0, 1), (0, 2), (1, 0), (1, 1), (1, 2)]);
    assert_eq!(sample_points(2, 3), canvas.sample_points());
    assert_eq!(canvas.area(), 6);
    assert_eq!(sample_points(0, 3), vec![]);
    assert_eq!(sample_points(3, 0), vec![]);
    assert_eq!(sample_points(1, 1), vec![(0, 0)]);
    assert_eq!(sample_points(3, 1), vec![(0, 0), (1, 0), (2, 0)]);
}

#[test]
fn paint_covers_a_canvas_of_as_many_positions() {
    let paint = Paint::Readings(vec![0; 6]);
    assert!(covers(&paint, 2, 3));
    assert!(covers(&paint, 6, 1));
    assert!(!covers(&paint, 2, 2));
    assert!(!covers(&paint, 0, 0));
    assert!(!covers(&paint, u32::MAX, u32::MAX));
    assert!(covers(&Paint::Colors(vec![]), 0, 7));
}

#[test]
fn canvas_paints_each_position_from_its_entry() {
    let mut canvas = Canvas::new(2, 3);
    let values = vec![-UNIT, -UNIT / 2, 0, UNIT / 2, UNIT, 2 * UNIT];
    canvas.paint(&Paint::Readings(values));
    assert_eq!(canvas.pixel(0, 0), Some((0, 0, 0)));
    assert_eq!(canvas.pixel(0, 1), Some((63, 63, 63)));
    assert_eq!(canvas.pixel(0, 2), Some((127, 127, 127)));
    assert_eq!(canvas.pixel(1, 0), Some((191, 191, 191)));
    assert_eq!(canvas.pixel(1, 1), Some((255, 255, 255)));
    assert_eq!(canvas.pixel(1, 2), Some((255, 255, 255)));
    assert_eq!(canvas.pixel(2, 0), None);
    assert_eq!(canvas.pixel(0, 3), None);
    let image = canvas.image().as_rgb8().unwrap();
    assert_eq!(image.dimensions(), (2, 3));
    assert_eq!(image.get_pixel(0, 1).0, [63, 63, 63]);
    assert_eq!(image.get_pixel(1, 0).0, [191, 191, 191]);
}

#[test]
fn canvas_paints_colours_component_by_component() {
    let mut canvas = Canvas::new(1, 3);
    canvas.paint(&Paint::Colors(vec![
        (UNIT, 0, -UNIT),
        (UNIT / 2, 3 * UNIT, i32::MIN),
        (0, 0, 0),
    ]));
    assert_eq!(canvas.pixel(0, 0), Some((255, 0, 0)));
    assert_eq!(canvas.pixel(0, 1), Some((127, 255, 0)));
    assert_eq!(canvas.pixel(0, 2), Some((0, 0, 0)));
}

#[test]
fn lch_takes_the_reading_to_a_hue_around_the_centre() {
    let settings = Settings::default();
    assert_eq!(
        lch(&settings, 0),
        Lch { lightness: 50 * UNIT, chroma: 80 * UNIT, hue: 0 }
    );
    assert_eq!(lch(&settings, UNIT / 2).hue, 90 * UNIT);
    assert_eq!(lch(&settings, -UNIT).hue, -180 * UNIT);
    assert_eq!(lch(&settings, UNIT).hue, 180 * UNIT);
    assert_eq!(lch(&settings, 2 * UNIT).hue, 180 * UNIT);
    assert_eq!(lch(&settings, i32::MIN).hue, -180 * UNIT);
    let settings = Settings::new(20 * UNIT, 30 * UNIT, 10 * UNIT, 20 * UNIT, false);
    assert_eq!(
        lch(&settings, UNIT / 4),
        Lch { lightness: 20 * UNIT, chroma: 30 * UNIT, hue: 15 * UNIT }
    );
    assert_eq!(lch(&settings, -UNIT).hue, -10 * UNIT);
    assert_eq!(lch(&settings, 0).hue, 10 * UNIT);
    assert_eq!(lch(&settings, 1).hue, 10 * UNIT + 20);
    assert_eq!(lch(&settings, -1).hue, 10 * UNIT - 20);
    let settings = Settings::new(0, 0, 180 * UNIT, 0, false);
    assert_eq!(lch(&settings, 12_345).hue, 180 * UNIT);
}

#[test]
fn hues_gives_one_colour_for_each_reading() {
    let model = Model::new(None);
    let colors = model.hues(&vec![-UNIT, 0, UNIT / 2]);
    assert_eq!(
        colors,
        vec![
            Lch { lightness: 50 * UNIT, chroma: 80 * UNIT, hue: -180 * UNIT },
            Lch { lightness: 50 * UNIT, chroma: 80 * UNIT, hue: 0 },
            Lch { lightness: 50 * UNIT, chroma: 80 * UNIT, hue: 90 * UNIT },
        ]
    );
    assert_eq!(model.hues(&vec![]), vec![]);
}

#[test]
fn update_paints_only_on_change() {
    let mut model = Model::new(None);
    let unused = Paint::Colors(vec![]);
    assert_eq!(model.update(10, 10, &unused), Ok(false));
    assert_eq!(model.canvas().pixel(0, 0), Some((0, 0, 0)));
    assert!(!model.should_redraw());

    assert!(tick(&mut model, 4, 3));
    assert!(!model.should_redraw());
    assert_eq!(model.canvas().width(), 4);
    assert_eq!(model.canvas().height(), 3);
    assert_eq!(model.canvas().image().dimensions(), (4, 3));
    assert_eq!(model.canvas().pixel(0, 0), Some((232, 0, 122)));
    assert!(!tick(&mut model, 4, 3));
    assert_eq!(model.update(4, 3, &unused), Ok(false));
    assert!(tick(&mut model, 3, 4));
    assert_eq!(model.canvas().image().dimensions(), (3, 4));

    model.apply_settings(gray(&model), false, true);
    assert!(model.should_redraw());
    assert!(model.needs_repaint(3, 4));
    assert!(tick(&mut model, 3, 4));
    assert!(!model.should_redraw());
    assert_eq!(model.canvas().pixel(0, 0), Some((127, 127, 127)));
    assert!(!tick(&mut model, 3, 4));
}

#[test]
fn update_refuses_paint_that_does_not_fit_and_changes_nothing() {
    let mut model = Model::new(None);
    let color = (UNIT, UNIT, UNIT);
    assert_eq!(
        model.update(2, 2, &Paint::Colors(vec![color; 3])),
        Err(RedrawError::Length)
    );
    assert_eq!(
        model.update(2, 2, &Paint::Readings(vec![0; 4])),
        Err(RedrawError::Mode)
    );
    assert_eq!(model.canvas().width(), 10);
    assert_eq!(model.canvas().pixel(0, 0), Some((0, 0, 0)));
    assert_eq!(model.update(2, 2, &Paint::Colors(vec![color; 4])), Ok(true));
    assert_eq!(model.canvas().width(), 2);
    assert_eq!(model.canvas().pixel(1, 1), Some((255, 255, 255)));
}

#[test]
fn update_size_gives_a_painted_canvas_of_exactly_the_new_size() {
    let mut model = Model::new(None);
    for (width, height) in [(1u32, 1u32), (7, 2), (2, 7), (0, 5), (5, 0), (640, 480)] {
        let paint = paint_for(&model, model.noise(), width, height);
        assert_eq!(model.update_size(width, height, &paint), Ok(()));
        assert_eq!(model.canvas().width(), width);
        assert_eq!(model.canvas().height(), height);
        assert_eq!(model.canvas().area(), (width * height) as usize);
        assert_eq!(model.canvas().image().dimensions(), (width, height));
        assert_eq!(
            model.canvas().image().as_rgb8().unwrap().as_raw().len(),
            (3 * width * height) as usize
        );
        assert!(!model.should_redraw());
        if width > 0 && height > 0 {
            assert_eq!(
                model.canvas().pixel(width - 1, height - 1),
                Some(paint.pixel(paint.len() - 1))
            );
        }
        assert_eq!(model.canvas().pixel(width, 0), None);
    }
}

#[test]
fn update_size_leaves_the_flag_as_it_was() {
    let mut model = Model::new(None);
    model.apply_settings(Settings::default(), true, false);
    assert!(model.should_redraw());
    let paint = paint_for(&model, model.noise(), 3, 3);
    assert_eq!(model.update_size(3, 3, &paint), Ok(()));
    assert!(model.should_redraw());
    assert_eq!(model.seed(), 0);
    assert_eq!(model.settings(), Settings::default());
}

#[test]
fn update_size_refuses_paint_made_for_another_size() {
    let mut model = Model::new(None);
    let paint = paint_for(&model, model.noise(), 3, 3);
    assert_eq!(model.update_size(3, 4, &paint), Err(RedrawError::Length));
    assert_eq!(
        model.update_size(3, 3, &Paint::Readings(vec![0; 9])),
        Err(RedrawError::Mode)
    );
    assert_eq!(model.canvas().width(), 10);
    assert_eq!(model.canvas().height(), 10);
}

#[test]
fn settings_take_effect_and_ask_for_a_repaint() {
    let mut model = Model::new(None);
    let gray = gray(&model);
    model.apply_settings(gray, false, false);
    assert_eq!(model.settings(), gray);
    assert!(!model.should_redraw());
    model.apply_settings(gray, false, true);
    assert!(model.should_redraw());
    model.apply_settings(gray, false, false);
    assert!(model.should_redraw());
    let mut model = Model::new(None);
    model.apply_settings(Settings::default(), true, false);
    assert!(model.should_redraw());
    assert!(model.needs_repaint(10, 10));
}

#[test]
fn redraw_refuses_paint_of_the_wrong_kind() {
    let mut model = Model::new(None);
    assert_eq!(model.update(2, 2, &Paint::Colors(vec![(0, 0, 0); 4])), Ok(true));
    assert_eq!(
        model.redraw_image(&Paint::Readings(vec![0, 0, 0, 0])),
        Err(RedrawError::Mode)
    );
    assert_eq!(model.canvas().pixel(0, 0), Some((0, 0, 0)));
    model.apply_settings(Settings::new(0, 0, 0, 0, true), false, false);
    assert_eq!(
        model.redraw_image(&Paint::Colors(vec![(0, 0, 0), (0, 0, 0), (0, 0, 0), (0, 0, 0)])),
        Err(RedrawError::Mode)
    );
    assert_eq!(model.redraw_image(&Paint::Colors(vec![])), Err(RedrawError::Mode));
}

#[test]
fn redraw_refuses_paint_of_the_wrong_length() {
    let mut model = Model::new(None);
    assert_eq!(model.update(2, 2, &Paint::Colors(vec![(0, 0, 0); 4])), Ok(true));
    let color = (UNIT, UNIT, UNIT);
    assert_eq!(
        model.redraw_image(&Paint::Colors(vec![color, color, color])),
        Err(RedrawError::Length)
    );
    assert_eq!(
        model.redraw_image(&Paint::Colors(vec![color, color, color, color, color])),
        Err(RedrawError::Length)
    );
    assert_eq!(model.canvas().pixel(1, 1), Some((0, 0, 0)));
    assert_eq!(
        model.redraw_image(&Paint::Colors(vec![color, color, color, color])),
        Ok(())
    );
    assert_eq!(model.canvas().pixel(1, 1), Some((255, 255, 255)));
}

#[test]
fn redraw_changes_only_pixels() {
    let mut model = Model::new(Some(seeded_noise(9)));
    let color = (UNIT / 2, 0, UNIT);
    assert_eq!(model.redraw_image(&Paint::Colors(vec![color; 100])), Ok(()));
    assert!(!model.should_redraw());
    assert_eq!(model.canvas().pixel(9, 9), Some((127, 0, 255)));
    model.apply_settings(Settings::default(), true, false);
    assert_eq!(model.redraw_image(&Paint::Colors(vec![(0, UNIT, 0); 100])), Ok(()));
    assert!(model.should_redraw());
    assert_eq!(model.seed(), 9);
    assert_eq!(model.settings(), Settings::default());
    assert_eq!(model.canvas().image().dimensions(), (10, 10));
    assert_eq!(model.canvas().pixel(9, 9), Some((0, 255, 0)));
}

#[test]
fn grayscale_canvas_has_equal_bytes_at_every_pixel() {
    let mut model = Model::new(Some(noise_from_token("alpha")));
    assert!(tick(&mut model, 40, 30));
    let mut unequal = 0;
    for x in 0..40 {
        for y in 0..30 {
            let (r, g, b) = model.canvas().pixel(x, y).unwrap();
            if r != g || g != b {
                unequal += 1;
            }
        }
    }
    assert!(unequal > 0);

    model.apply_settings(gray(&model), false, true);
    let paint = paint_for(&model, model.noise(), 40, 30);
    assert!(paint.is_readings());
    assert_eq!(paint.len(), 1200);
    assert_eq!(model.update(40, 30, &paint), Ok(true));
    let values = readings(model.noise(), 40, 30);
    for x in 0..40u32 {
        for y in 0..30u32 {
            let (r, g, b) = model.canvas().pixel(x, y).unwrap();
            assert_eq!(r, g);
            assert_eq!(g, b);
            assert_eq!(r, channel(values[(x * 30 + y) as usize]));
        }
    }
    assert_eq!(model.canvas().pixel(0, 0), Some((127, 127, 127)));
    assert_eq!(model.canvas().pixel(3, 3), Some((129, 129, 129)));
}

#[test]
fn default_settings_fill_a_four_by_four_canvas() {
    let mut model = Model::new(None);
    let paint = paint_for(&model, model.noise(), 4, 4);
    assert!(!paint.is_readings());
    assert_eq!(paint.len(), 16);
    assert_eq!(model.update(4, 4, &paint), Ok(true));
    assert!(!model.should_redraw());
    assert_eq!(model.canvas().image().dimensions(), (4, 4));
    let image = model.canvas().image().as_rgb8().unwrap();
    assert_eq!(image.as_raw().len(), 48);
    let points = model.canvas().sample_points();
    assert_eq!(points.len(), 16);
    for (index, (x, y)) in points.into_iter().enumerate() {
        let expected = paint.pixel(index);
        assert_eq!(model.canvas().pixel(x, y), Some(expected));
        assert_eq!(image.get_pixel(x, y).0, [expected.0, expected.1, expected.2]);
        assert_ne!(expected, (0, 0, 0));
    }
    assert_eq!(model.canvas().pixel(0, 0), Some((232, 0, 122)));
}

#[test]
fn no_lightness_and_no_chroma_is_black() {
    let mut model = Model::new(None);
    model.apply_settings(Settings::new(0, 0, 0, 180 * UNIT, false), false, true);
    assert!(tick(&mut model, 1, 1));
    assert_eq!(model.canvas().pixel(0, 0), Some((0, 0, 0)));
    assert!(tick(&mut model, 3, 2));
    for (x, y) in sample_points(3, 2) {
        assert_eq!(model.canvas().pixel(x, y), Some((0, 0, 0)));
    }
}

#[test]
fn update_noise_replaces_the_source_and_every_pixel() {
    let mut model = Model::new(Some(noise_from_token("alpha")));
    model.apply_settings(gray(&model), false, false);
    assert!(tick(&mut model, 60, 40));
    let before: Vec<_> = sample_points(60, 40)
        .into_iter()
        .map(|(x, y)| model.canvas().pixel(x, y).unwrap())
        .collect();

    let noise = noise_from_token("beta");
    let paint = paint_for(&model, &noise, 60, 40);
    assert_eq!(model.update_noise(noise, &paint), Ok(()));
    assert_eq!(model.seed(), 0x6265_7461);
    assert_eq!(model.noise().seed(), 0x6265_7461);
    assert!(!model.should_redraw());
    assert_eq!(model.canvas().image().dimensions(), (60, 40));
    assert_eq!(model.view(), Some("beta".to_string()));
    let after: Vec<_> = sample_points(60, 40)
        .into_iter()
        .map(|(x, y)| model.canvas().pixel(x, y).unwrap())
        .collect();
    for index in 0..after.len() {
        assert_eq!(after[index], paint.pixel(index));
    }
    assert_ne!(before, after);
    assert!(!tick(&mut model, 60, 40));
}

#[test]
fn update_noise_leaves_the_flag_as_it_was() {
    let mut model = Model::new(None);
    model.apply_settings(Settings::default(), true, false);
    let noise = seeded_noise(5);
    let paint = paint_for(&model, &noise, 10, 10);
    assert_eq!(model.update_noise(noise, &paint), Ok(()));
    assert!(model.should_redraw());
    assert_eq!(model.seed(), 5);
    assert_eq!(model.view(), Some("\0\0\0\u{5}".to_string()));
}

#[test]
fn update_noise_refuses_paint_that_does_not_fit_and_keeps_the_source() {
    let mut model = Model::new(None);
    assert_eq!(
        model.update_noise(seeded_noise(5), &Paint::Colors(vec![(0, 0, 0); 99])),
        Err(RedrawError::Length)
    );
    assert_eq!(
        model.update_noise(seeded_noise(5), &Paint::Readings(vec![0; 100])),
        Err(RedrawError::Mode)
    );
    assert_eq!(model.seed(), 0);
}

#[test]
fn mouse_press_gives_a_fresh_token_and_its_source() {
    let mut model = Model::new(None);
    let (token, noise) = Model::mouse_pressed();
    assert!(token.contains('-'));
    assert_eq!(noise.seed(), seed_from_token(&token));
    assert_eq!(noise.octaves, 6);
    let paint = paint_for(&model, &noise, 10, 10);
    assert_eq!(model.update_noise(noise, &paint), Ok(()));
    assert_eq!(model.seed(), seed_from_token(&token));
    let shown = model.view().unwrap();
    assert!(token.starts_with(shown.trim_end_matches('\0')));
}
