use notan::prelude::Random;
use notan::random::rand::Rng;
use notan_sketches::colors::PalettesSelection;
use notan_sketches::emotion::{get_mapped_emocolor, ColorMapping, Sentiment};
use notan_sketches::emotion_bg_visualizer::visualizers::color_transition::{
    color_method_named, ColorMethod,
};
use notan_sketches::emotion_bg_visualizer::visualizers::tile::{
    text_shadow_layers, TextShadow, Tile, TilesLayout, MAX_COLS, MAX_ROWS,
};
use notan_sketches::shaderutils::ShaderReloadManager;
use notan_sketches::utils::{
    get_rng, screen_supersample, CommonHelpModal, EventsFocus, FocusEvent, ScreenSupersample,
};

#[test]
fn test_palette_selection_from_index() {
    assert!(matches!(PalettesSelection::from_index(0), PalettesSelection::Neon));
    assert!(matches!(PalettesSelection::from_index(1), PalettesSelection::PurpleFade));
    assert!(matches!(PalettesSelection::from_index(2), PalettesSelection::DarkAcademia));
    assert!(matches!(PalettesSelection::from_index(3), PalettesSelection::PartySoho));
    assert!(matches!(PalettesSelection::from_index(4), PalettesSelection::StabiloBossPastel));
    assert!(matches!(PalettesSelection::from_index(5), PalettesSelection::RandomlyGenerated));
    assert!(matches!(PalettesSelection::from_index(6), PalettesSelection::All));
    assert!(matches!(PalettesSelection::from_index(-1), PalettesSelection::All));
}

#[test]
fn test_get_rng_keeps_given_seed_and_is_reproducible() {
    let (mut a, seed_a) = get_rng(Some(42));
    let (mut b, seed_b) = get_rng(Some(42));
    assert_eq!(seed_a, 42);
    assert_eq!(seed_b, 42);
    let mut reference = Random::new(42);
    for _ in 0..8 {
        let x: u64 = a.random();
        assert_eq!(x, b.random::<u64>());
        assert_eq!(x, reference.random::<u64>());
    }
}

#[test]
fn test_get_rng_without_seed_reports_its_seed() {
    let (mut rng, seed) = get_rng(None);
    let mut reference = Random::new(seed);
    for _ in 0..4 {
        assert_eq!(rng.random::<u32>(), reference.random::<u32>());
    }
}

#[test]
fn test_screen_supersample() {
    assert_eq!(
        screen_supersample(8192, 800, 600),
        ScreenSupersample::Doubled { width: 1600, height: 1200 }
    );
    assert_eq!(screen_supersample(8192, 1920, 1080), ScreenSupersample::Scaled);
    assert_eq!(screen_supersample(8192, 1080, 1920), ScreenSupersample::Scaled);
    // 4096 / 1920 == 2, which is not more than 2
    assert_eq!(screen_supersample(4096, 1920, 1080), ScreenSupersample::Unchanged);
    // 3000 / 1000 == 3
    assert_eq!(
        screen_supersample(3000, 1000, 500),
        ScreenSupersample::Doubled { width: 2000, height: 1000 }
    );
    assert_eq!(screen_supersample(2999, 1000, 500), ScreenSupersample::Unchanged);
    // a texture size past i32::MAX turns negative, as in the cast to i32
    assert_eq!(screen_supersample(u32::MAX, 800, 600), ScreenSupersample::Unchanged);
}

#[test]
fn test_help_modal_first_click_shows_then_toggles() {
    let mut modal = CommonHelpModal::new((), "help".to_string(), "touch".to_string(), None);
    assert!(!modal.show_help && !modal.show_touch_help);
    modal.handle_mouse_up();
    assert!(modal.show_help);
    modal.handle_mouse_up();
    assert!(!modal.show_help);
    modal.handle_mouse_up();
    assert!(modal.show_help);
    // help was shown already, so a touch is not the first one
    assert!(!modal.handle_first_touch_with_help());
    assert!(!modal.show_touch_help);
}

#[test]
fn test_help_modal_first_touch() {
    let mut modal = CommonHelpModal::new(7u8, "h".to_string(), "t".to_string(), Some("i".to_string()));
    assert!(modal.handle_first_touch_with_help());
    assert!(modal.show_touch_help);
    assert!(!modal.show_help);
    assert!(!modal.handle_first_touch_with_help());
    modal.toggle_touch_help();
    assert!(!modal.show_touch_help);
    modal.toggle_touch_help();
    assert!(modal.show_touch_help);
    // after a touch, a click toggles the help rather than showing it for the first time
    modal.handle_mouse_up();
    assert!(modal.show_help);
    assert_eq!(*modal.help_font(), 7u8);
    assert_eq!(modal.info_text().as_deref(), Some("i"));
    assert_eq!(modal.help_text, "h");
    assert_eq!(modal.touch_help_text, "t");
}

#[test]
fn test_events_focus() {
    let mut focus = EventsFocus(false);
    assert!(!focus.has_focus());
    focus.detect(&FocusEvent::Other);
    assert!(!focus.has_focus());
    focus.detect(&FocusEvent::MouseEnter { x: 3, y: 4 });
    assert!(focus.has_focus());
    focus.detect(&FocusEvent::Other);
    assert!(focus.has_focus());
    focus.detect(&FocusEvent::MouseLeft { x: 0, y: 0 });
    assert!(!focus.has_focus());
}

#[test]
fn test_shader_reload_every_sixty_frames() {
    let mut manager = ShaderReloadManager::default();
    assert_eq!(manager.frame, 0);
    assert!(!manager.needs_reload());
    manager.update();
    assert_eq!(manager.frame, 1);
    assert!(manager.needs_reload());
    assert!(!manager.needs_reload());
    for _ in 1..60 {
        manager.update();
        assert!(!manager.needs_reload());
    }
    assert_eq!(manager.frame, 60);
    manager.update();
    assert!(manager.needs_reload());
}

#[test]
fn test_text_shadow_layers() {
    assert_eq!(text_shadow_layers("Full"), TextShadow::FarAndNear);
    assert_eq!(text_shadow_layers("Moderate"), TextShadow::Near);
    assert_eq!(text_shadow_layers("None"), TextShadow::NoShadow);
    assert_eq!(text_shadow_layers("full"), TextShadow::NoShadow);
}

#[test]
fn test_color_method_named() {
    assert_eq!(color_method_named("Simple Color"), Some(ColorMethod::SimpleColor));
    assert_eq!(color_method_named("Black, White, Gray"), Some(ColorMethod::BlackWhiteGray));
    assert_eq!(color_method_named("Grayscale"), Some(ColorMethod::Grayscale));
    assert_eq!(color_method_named("Sepia"), None);
}

#[test]
fn test_tile_copies_emocolor() {
    let emocolor = get_mapped_emocolor("joy", &ColorMapping::PLUTCHIK);
    let tile = Tile::new(&emocolor);
    assert_eq!(tile.emocolor.emotion, "joy");
    assert_eq!(tile.emocolor.sentiment, Sentiment::POSITIVE);
    assert_eq!(tile.emocolor.hsv, emocolor.hsv);
}

fn is_rectangular<T>(layout: &TilesLayout<T>) -> bool {
    layout.reprs.len() == layout.rows && layout.reprs.iter().all(|r| r.len() == layout.cols)
}

#[test]
fn test_layout_none_is_empty() {
    let layout: TilesLayout<u32> = TilesLayout::none();
    assert_eq!(layout.rows, 0);
    assert_eq!(layout.cols, 0);
    assert!(layout.reprs.is_empty());
}

#[test]
fn test_layout_grows_from_empty() {
    let mut rng = Random::new(1);
    let mut layout: TilesLayout<u32> = TilesLayout::none();
    layout.rows = 3;
    layout.cols = 4;
    layout.grow_or_shrink_layout(&mut rng);
    assert!(is_rectangular(&layout));
    // every new tile is a default value or a clone of one
    assert!(layout.reprs.iter().all(|r| r.iter().all(|t| *t == 0)));
}

#[test]
fn test_layout_keeps_tiles_and_clones_the_first_row() {
    let mut rng = Random::new(5);
    let mut layout = TilesLayout { rows: 3, cols: 3, reprs: vec![vec![1u32, 2], vec![7]] };
    layout.grow_or_shrink_layout(&mut rng);
    assert!(is_rectangular(&layout));
    assert_eq!(layout.reprs[0][0], 1);
    assert_eq!(layout.reprs[0][1], 2);
    assert!([1, 2].contains(&layout.reprs[0][2]));
    assert_eq!(layout.reprs[1][0], 7);
    for t in layout.reprs[1][1..].iter().chain(layout.reprs[2].iter()) {
        assert!(layout.reprs[0].contains(t));
    }
}

#[test]
fn test_layout_shrinks() {
    let mut rng = Random::new(9);
    let mut layout = TilesLayout {
        rows: 1,
        cols: 2,
        reprs: vec![vec![1u32, 2, 3], vec![4, 5, 6], vec![7, 8, 9]],
    };
    layout.grow_or_shrink_layout(&mut rng);
    assert_eq!(layout.reprs, vec![vec![1, 2]]);
}

#[test]
fn test_layout_single_tile_first_row_is_cloned() {
    let mut rng = Random::new(3);
    let mut layout = TilesLayout { rows: 2, cols: 1, reprs: vec![vec![11u32]] };
    layout.grow_or_shrink_layout(&mut rng);
    assert_eq!(layout.reprs, vec![vec![11], vec![11]]);
}

#[test]
fn test_layout_refresh_bounds() {
    for seed in 0..50u64 {
        let mut rng = Random::new(seed);
        for tiles in 0..8usize {
            let mut layout: TilesLayout<u32> = TilesLayout::none();
            layout.refresh(&mut rng, tiles);
            if tiles > MAX_COLS {
                assert_eq!(layout.cols, tiles);
            } else {
                assert!(tiles <= layout.cols && layout.cols <= MAX_COLS);
            }
            assert!(1 <= layout.rows && layout.rows <= MAX_ROWS);
            assert!(is_rectangular(&layout));
        }
    }
}

#[test]
fn test_layout_refresh_draws_vary() {
    let mut rng = Random::new(2024);
    let mut seen_rows = std::collections::HashSet::new();
    for _ in 0..200 {
        let mut layout: TilesLayout<u32> = TilesLayout::none();
        layout.refresh(&mut rng, 0);
        seen_rows.insert(layout.rows);
    }
    assert!(seen_rows.len() > 1);
}
