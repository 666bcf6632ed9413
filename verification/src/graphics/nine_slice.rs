//! Nine-slice panels: a texture region cut into a 3×3 grid whose border
//! cells keep their size while the interior stretches.

use vstd::prelude::*;
use crate::math::{clamp_to_i32, saturate, Rectangle};

verus! {

/// How a texture region is cut into nine cells: the thickness of the border
/// on each side, in pixels.
#[derive(Clone, Copy, Debug, PartialEq, Eq, Structural)]
pub struct NineSlice {
    pub region: Rectangle,
    pub left: i32,
    pub right: i32,
    pub top: i32,
    pub bottom: i32,
}

/// One cell of a panel: the part `source` of the texture is stretched over
/// the rectangle `target`, which is relative to where the panel is drawn.
#[derive(Clone, Copy, Debug, PartialEq, Eq, Structural)]
pub struct Patch {
    pub source: Rectangle,
    pub target: Rectangle,
}

/// The extent of a panel along one axis: what was asked for, but no less
/// than the two borders together.
pub open spec fn panel_extent(requested: i32, near: i32, far: i32) -> int {
    if requested >= near + far {
        requested as int
    } else {
        near + far
    }
}

/// Where band `index` (0, 1 or 2) of an extent that starts at `start` begins.
pub open spec fn band_start(start: int, extent: int, near: i32, far: i32, index: int) -> int {
    if index == 0 {
        start
    } else if index == 1 {
        start + near
    } else {
        start + extent - far
    }
}

/// How long band `index` (0, 1 or 2) of an extent is.
pub open spec fn band_length(extent: int, near: i32, far: i32, index: int) -> int {
    if index == 0 {
        near as int
    } else if index == 1 {
        extent - near - far
    } else {
        far as int
    }
}

impl NineSlice {
    /// Whether the configuration makes sense: the borders are not negative
    /// and fit into the region, and the region's far edges are coordinates.
    pub open spec fn valid(self) -> bool {
        &&& 0 <= self.left
        &&& 0 <= self.right
        &&& 0 <= self.top
        &&& 0 <= self.bottom
        &&& self.left + self.right <= self.region.width
        &&& self.top + self.bottom <= self.region.height
        &&& self.region.x + self.region.width <= i32::MAX
        &&& self.region.y + self.region.height <= i32::MAX
    }

    /// The cell in row `row` and column `column` of a panel of the requested
    /// size.
    pub open spec fn spec_patch(self, row: int, column: int, width: i32, height: i32) -> Patch {
        let panel_width = panel_extent(width, self.left, self.right);
        let panel_height = panel_extent(height, self.top, self.bottom);
        Patch {
            source: Rectangle {
                x: clamp_to_i32(
                    band_start(self.region.x as int, self.region.width as int, self.left, self.right, column),
                ),
                y: clamp_to_i32(
                    band_start(self.region.y as int, self.region.height as int, self.top, self.bottom, row),
                ),
                width: clamp_to_i32(band_length(self.region.width as int, self.left, self.right, column)),
                height: clamp_to_i32(band_length(self.region.height as int, self.top, self.bottom, row)),
            },
            target: Rectangle {
                x: clamp_to_i32(band_start(0, panel_width, self.left, self.right, column)),
                y: clamp_to_i32(band_start(0, panel_height, self.top, self.bottom, row)),
                width: clamp_to_i32(band_length(panel_width, self.left, self.right, column)),
                height: clamp_to_i32(band_length(panel_height, self.top, self.bottom, row)),
            },
        }
    }

    /// The nine cells of a panel of the requested size, row by row.
    pub open spec fn spec_layout(self, width: i32, height: i32) -> Seq<Patch> {
        Seq::new(9, |i: int| self.spec_patch(i / 3, i % 3, width, height))
    }

    pub fn new(region: Rectangle, left: i32, right: i32, top: i32, bottom: i32) -> (config: NineSlice)
        ensures
            config == (NineSlice { region, left, right, top, bottom }),
    {
        NineSlice { region, left, right, top, bottom }
    }

    /// A configuration with the same border on all four sides.
    pub fn with_border(region: Rectangle, border: i32) -> (config: NineSlice)
        ensures
            config == (NineSlice { region, left: border, right: border, top: border, bottom: border }),
    {
        NineSlice { region, left: border, right: border, top: border, bottom: border }
    }

    /// Whether the configuration makes sense.
    pub fn is_valid(&self) -> (valid: bool)
        ensures
            valid == self.valid(),
    {
        0 <= self.left && 0 <= self.right && 0 <= self.top && 0 <= self.bottom && self.left as i64
            + self.right as i64 <= self.region.width as i64 && self.top as i64 + self.bottom as i64
            <= self.region.height as i64 && self.region.x as i64 + self.region.width as i64
            <= 0x7fff_ffff && self.region.y as i64 + self.region.height as i64 <= 0x7fff_ffff
    }

    /// The nine cells of a panel of `width` by `height` pixels, row by row.
    /// A panel is never smaller than its borders: a size below them is
    /// raised, so that the interior shrinks to nothing but never turns over.
    pub fn layout(&self, width: i32, height: i32) -> (patches: Vec<Patch>)
        ensures
            patches@ == self.spec_layout(width, height),
    {
        let panel_width: i64 = extent(width, self.left, self.right);
        let panel_height: i64 = extent(height, self.top, self.bottom);
        let mut patches: Vec<Patch> = Vec::new();
        let mut row: usize = 0;
        while row < 3
            invariant
                0 <= row <= 3,
                panel_width == panel_extent(width, self.left, self.right),
                panel_height == panel_extent(height, self.top, self.bottom),
                patches@.len() == 3 * row,
                forall|i: int|
                    0 <= i < patches@.len() ==> #[trigger] patches@[i] == self.spec_patch(
                        i / 3,
                        i % 3,
                        width,
                        height,
                    ),
            decreases 3 - row,
        {
            let (source_y, source_height) = band(
                self.region.y as i64,
                self.region.height as i64,
                self.top,
                self.bottom,
                row,
            );
            let (target_y, target_height) = band(0, panel_height, self.top, self.bottom, row);
            let mut column: usize = 0;
            while column < 3
                invariant
                    0 <= row < 3,
                    0 <= column <= 3,
                    panel_width == panel_extent(width, self.left, self.right),
                    panel_height == panel_extent(height, self.top, self.bottom),
                    source_y == clamp_to_i32(
                        band_start(
                            self.region.y as int,
                            self.region.height as int,
                            self.top,
                            self.bottom,
                            row as int,
                        ),
                    ),
                    source_height == clamp_to_i32(
                        band_length(self.region.height as int, self.top, self.bottom, row as int),
                    ),
                    target_y == clamp_to_i32(
                        band_start(0, panel_height as int, self.top, self.bottom, row as int),
                    ),
                    target_height == clamp_to_i32(
                        band_length(panel_height as int, self.top, self.bottom, row as int),
                    ),
                    patches@.len() == 3 * row + column,
                    forall|i: int|
                        0 <= i < patches@.len() ==> #[trigger] patches@[i] == self.spec_patch(
                            i / 3,
                            i % 3,
                            width,
                            height,
                        ),
                decreases 3 - column,
            {
                let (source_x, source_width) = band(
                    self.region.x as i64,
                    self.region.width as i64,
                    self.left,
                    self.right,
                    column,
                );
                let (target_x, target_width) = band(0, panel_width, self.left, self.right, column);
                patches.push(
                    Patch {
                        source: Rectangle { x: source_x, y: source_y, width: source_width, height: source_height },
                        target: Rectangle { x: target_x, y: target_y, width: target_width, height: target_height },
                    },
                );
                column = column + 1;
            }
            row = row + 1;
        }
        assert(patches@ =~= self.spec_layout(width, height));
        patches
    }
}

/// The extent of a panel along one axis.
fn extent(requested: i32, near: i32, far: i32) -> (total: i64)
    ensures
        total == panel_extent(requested, near, far),
{
    let borders: i64 = near as i64 + far as i64;
    if requested as i64 >= borders {
        requested as i64
    } else {
        borders
    }
}

/// Where band `index` of an extent begins, and how long it is, each as a
/// coordinate.
fn band(start: i64, length: i64, near: i32, far: i32, index: usize) -> (placed: (i32, i32))
    requires
        index < 3,
        -0x1_0000_0000 <= start <= 0x1_0000_0000,
        -0x1_0000_0000 <= length <= 0x1_0000_0000,
    ensures
        placed.0 == clamp_to_i32(band_start(start as int, length as int, near, far, index as int)),
        placed.1 == clamp_to_i32(band_length(length as int, near, far, index as int)),
{
    if index == 0 {
        (saturate(start as i128), near)
    } else if index == 1 {
        (saturate(start as i128 + near as i128), saturate(length as i128 - near as i128 - far as i128))
    } else {
        (saturate(start as i128 + length as i128 - far as i128), far)
    }
}

/// In a panel laid out by a valid configuration no coordinate saturates,
/// the border cells are as thick as the borders of the texture region,
/// whatever size was asked for, and the three bands of either axis lie side
/// by side: they start where the one before ends, none is turned over, and
/// together they span the panel.
pub proof fn lemma_bands_tile_the_panel(config: NineSlice, width: i32, height: i32)
    requires
        config.valid(),
    ensures
        ({
            let top_left = config.spec_patch(0, 0, width, height);
            let middle = config.spec_patch(1, 1, width, height);
            let bottom_right = config.spec_patch(2, 2, width, height);
            &&& top_left.target.width == config.left && top_left.source.width == config.left
            &&& top_left.target.height == config.top && top_left.source.height == config.top
            &&& bottom_right.target.width == config.right && bottom_right.source.width == config.right
            &&& bottom_right.target.height == config.bottom && bottom_right.source.height
                == config.bottom
            &&& top_left.target.x == 0 && top_left.target.y == 0
            &&& middle.target.x == top_left.target.x + top_left.target.width
            &&& middle.target.y == top_left.target.y + top_left.target.height
            &&& middle.target.width >= 0 && middle.target.height >= 0
            &&& bottom_right.target.x == middle.target.x + middle.target.width
            &&& bottom_right.target.y == middle.target.y + middle.target.height
            &&& bottom_right.target.x + bottom_right.target.width == panel_extent(
                width,
                config.left,
                config.right,
            )
            &&& bottom_right.target.y + bottom_right.target.height == panel_extent(
                height,
                config.top,
                config.bottom,
            )
            &&& top_left.source.x == config.region.x && top_left.source.y == config.region.y
            &&& middle.source.x == top_left.source.x + top_left.source.width
            &&& middle.source.y == top_left.source.y + top_left.source.height
            &&& middle.source.width >= 0 && middle.source.height >= 0
            &&& bottom_right.source.x == middle.source.x + middle.source.width
            &&& bottom_right.source.y == middle.source.y + middle.source.height
            &&& bottom_right.source.x + bottom_right.source.width == config.region.x
                + config.region.width
            &&& bottom_right.source.y + bottom_right.source.height == config.region.y
                + config.region.height
        }),
{
}

/// Every cell of a row has the row's vertical band, and every cell of a
/// column has the column's horizontal band.
pub proof fn lemma_cells_share_their_bands(config: NineSlice, row: int, column: int, width: i32, height: i32)
    ensures
        ({
            let cell = config.spec_patch(row, column, width, height);
            let in_row = config.spec_patch(row, 0, width, height);
            let in_column = config.spec_patch(0, column, width, height);
            &&& cell.target.y == in_row.target.y && cell.target.height == in_row.target.height
            &&& cell.source.y == in_row.source.y && cell.source.height == in_row.source.height
            &&& cell.target.x == in_column.target.x && cell.target.width == in_column.target.width
            &&& cell.source.x == in_column.source.x && cell.source.width == in_column.source.width
        }),
{
}

} // verus!
