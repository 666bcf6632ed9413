use tetra::context::{ContextBuilder, Platform};
use tetra::graphics::nine_slice::{NineSlice, Patch};
use tetra::graphics::params::DrawParams;
use tetra::graphics::{Command, DrawCall, GraphicsState, Source, Texture};
use tetra::math::Rectangle;

fn patch(source: (i32, i32, i32, i32), target: (i32, i32, i32, i32)) -> Patch {
    Patch {
        source: Rectangle::new(source.0, source.1, source.2, source.3),
        target: Rectangle::new(target.0, target.1, target.2, target.3),
    }
}

#[test]
fn constructors_set_the_borders() {
    let region = Rectangle::new(0, 0, 32, 32);
    assert_eq!(
        NineSlice::new(region, 1, 2, 3, 4),
        NineSlice { region, left: 1, right: 2, top: 3, bottom: 4 }
    );
    assert_eq!(
        NineSlice::with_border(region, 4),
        NineSlice { region, left: 4, right: 4, top: 4, bottom: 4 }
    );
}

#[test]
fn a_panel_keeps_its_borders_and_stretches_its_interior() {
    let config = NineSlice::with_border(Rectangle::new(0, 0, 32, 32), 4);
    assert!(config.is_valid());
    let patches = config.layout(640, 480);
    assert_eq!(
        patches,
        vec![
            patch((0, 0, 4, 4), (0, 0, 4, 4)),
            patch((4, 0, 24, 4), (4, 0, 632, 4)),
            patch((28, 0, 4, 4), (636, 0, 4, 4)),
            patch((0, 4, 4, 24), (0, 4, 4, 472)),
            patch((4, 4, 24, 24), (4, 4, 632, 472)),
            patch((28, 4, 4, 24), (636, 4, 4, 472)),
            patch((0, 28, 4, 4), (0, 476, 4, 4)),
            patch((4, 28, 24, 4), (4, 476, 632, 4)),
            patch((28, 28, 4, 4), (636, 476, 4, 4)),
        ]
    );
}

#[test]
fn borders_may_differ_and_the_region_may_lie_anywhere() {
    let config = NineSlice::new(Rectangle::new(10, 20, 30, 40), 1, 2, 3, 4);
    assert!(config.is_valid());
    let patches = config.layout(100, 50);
    assert_eq!(patches.len(), 9);
    assert_eq!(patches[0], patch((10, 20, 1, 3), (0, 0, 1, 3)));
    assert_eq!(patches[1], patch((11, 20, 27, 3), (1, 0, 97, 3)));
    assert_eq!(patches[2], patch((38, 20, 2, 3), (98, 0, 2, 3)));
    assert_eq!(patches[4], patch((11, 23, 27, 33), (1, 3, 97, 43)));
    assert_eq!(patches[6], patch((10, 56, 1, 4), (0, 46, 1, 4)));
    assert_eq!(patches[8], patch((38, 56, 2, 4), (98, 46, 2, 4)));
}

#[test]
fn a_panel_smaller_than_its_borders_is_raised_to_them() {
    let config = NineSlice::with_border(Rectangle::new(0, 0, 32, 32), 4);
    let smallest = config.layout(8, 8);
    for (width, height) in [(5, 3), (0, 0), (-100, 7), (i32::MIN, i32::MIN)] {
        assert_eq!(config.layout(width, height), smallest);
    }
    // The interior has shrunk to nothing; it has not turned over.
    assert_eq!(smallest[4], patch((4, 4, 24, 24), (4, 4, 0, 0)));
    assert_eq!(smallest[8], patch((28, 28, 4, 4), (4, 4, 4, 4)));
    // One axis may be raised while the other is not.
    let mixed = config.layout(100, 2);
    assert_eq!(mixed[4], patch((4, 4, 24, 24), (4, 4, 92, 0)));
}

#[test]
fn a_panel_may_be_as_large_as_coordinates_go() {
    let config = NineSlice::with_border(Rectangle::new(i32::MAX - 32, i32::MAX - 32, 32, 32), 16);
    assert!(config.is_valid());
    let patches = config.layout(i32::MAX, i32::MAX);
    assert_eq!(patches[8], patch((i32::MAX - 16, i32::MAX - 16, 16, 16), (i32::MAX - 16, i32::MAX - 16, 16, 16)));
    assert_eq!(patches[4].source, Rectangle::new(i32::MAX - 16, i32::MAX - 16, 0, 0));
}

#[test]
fn a_configuration_that_makes_no_sense_is_laid_out_by_the_same_rules() {
    // Borders of 20 do not fit into a region of 32: the interior of the
    // source turns over, the panel does not.
    let config = NineSlice::with_border(Rectangle::new(0, 0, 32, 32), 20);
    assert!(!config.is_valid());
    let patches = config.layout(100, 10);
    assert_eq!(patches[0], patch((0, 0, 20, 20), (0, 0, 20, 20)));
    assert_eq!(patches[4], patch((20, 20, -8, -8), (20, 20, 60, 0)));
    assert_eq!(patches[8], patch((12, 12, 20, 20), (80, 20, 20, 20)));
    // Where a coordinate leaves the range it stays at its end.
    let wide = NineSlice::new(Rectangle::new(i32::MAX, 0, 10, 10), i32::MAX, i32::MAX, 0, 0);
    let patches = wide.layout(0, 10);
    assert_eq!(patches[1].source.x, i32::MAX);
    assert_eq!(patches[2].target, Rectangle::new(i32::MAX, 0, i32::MAX, 0));
}

#[test]
fn borders_that_do_not_fit_are_not_valid() {
    let region = Rectangle::new(0, 0, 32, 32);
    assert!(NineSlice::new(region, 16, 16, 16, 16).is_valid());
    assert!(NineSlice::new(region, 0, 0, 0, 0).is_valid());
    assert!(!NineSlice::new(region, 17, 16, 0, 0).is_valid());
    assert!(!NineSlice::new(region, 0, 0, 16, 17).is_valid());
    assert!(!NineSlice::new(region, -1, 0, 0, 0).is_valid());
    assert!(!NineSlice::new(region, 0, -1, 0, 0).is_valid());
    assert!(!NineSlice::new(region, 0, 0, -1, 0).is_valid());
    assert!(!NineSlice::new(region, 0, 0, 0, -1).is_valid());
    assert!(!NineSlice::new(region, i32::MAX, i32::MAX, 0, 0).is_valid());
    assert!(!NineSlice::with_border(Rectangle::new(i32::MAX, 0, 32, 32), 4).is_valid());
    assert!(!NineSlice::with_border(Rectangle::new(0, i32::MAX - 31, 32, 32), 4).is_valid());
    assert!(!NineSlice::with_border(Rectangle::new(0, 0, -32, 32), 0).is_valid());
}

#[test]
fn drawing_a_panel_submits_its_nine_patches_as_one_draw() {
    let platform = Platform {
        physical_width: 640,
        physical_height: 480,
        instance_capacity: 1,
        monitors: Err(String::from("not asked")),
        current_monitor: Err(String::from("not asked")),
    };
    let mut ctx = ContextBuilder::new("Panel", 640, 480).build(Ok(platform)).unwrap();
    let texture = Texture::from_device(11, 32, 32);
    let config = NineSlice::with_border(Rectangle::new(0, 0, 32, 32), 4);
    let params = DrawParams::new();
    texture.draw_nine_slice(&mut ctx, &config, 640, 480, params);
    assert_eq!(
        ctx.graphics.commands,
        vec![Command::Draw(DrawCall {
            state: GraphicsState::initial(),
            source: Source::Patches { texture: 11, patches: config.layout(640, 480) },
            params,
            instances: 1,
        })]
    );
}
