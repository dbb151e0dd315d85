//! The player character and the geometry of its sprite sheet.
use vstd::prelude::*;
use crate::heading::Heading;

verus! {

/// Marker for the player character.
#[derive(Clone, Copy, Debug, PartialEq, Eq, Structural)]
pub struct Player;

/// A slice of a sprite sheet cut into equal tiles: `columns` by `rows`
/// tiles of `tile_width` by `tile_height` pixels, starting `offset` pixels
/// from the sheet's top-left corner (no offset: at the corner).
#[derive(Clone, Copy, Debug, PartialEq, Eq, Structural)]
pub struct GridLayout {
    pub tile_width: u32,
    pub tile_height: u32,
    pub columns: usize,
    pub rows: usize,
    pub offset: Option<Offset>,
}

/// A distance in pixels from the sheet's top-left corner, `y` pointing down.
#[derive(Clone, Copy, Debug, PartialEq, Eq, Structural)]
pub struct Offset {
    pub x: u32,
    pub y: u32,
}

/// Frames in an idle row: a single one facing north, three otherwise; a
/// walking row uses the sheet's full width.
pub open spec fn spec_column_count(heading: Heading, is_idle: bool) -> usize {
    if is_idle {
        if heading == Heading::North {
            1
        } else {
            3
        }
    } else {
        Player::FULL_COLUMN_COUNT
    }
}

/// Row of the sheet that holds each animation: the idle rows come first in
/// the order south, west, north, east, then the walking rows in that order.
pub open spec fn spec_row(heading: Heading, is_idle: bool) -> nat {
    let base: nat = if is_idle {
        0
    } else {
        4
    };
    base + match heading {
        Heading::South => 0nat,
        Heading::West => 1nat,
        Heading::North => 2nat,
        Heading::East => 3nat,
    }
}

/// The one-row slice of the sheet for a heading, idle or walking.
pub open spec fn spec_layout(heading: Heading, is_idle: bool) -> GridLayout {
    GridLayout {
        tile_width: Player::COLUMN_SIZE,
        tile_height: Player::ROW_SIZE,
        columns: spec_column_count(heading, is_idle),
        rows: 1,
        offset: if heading == Heading::South && is_idle {
            None
        } else {
            Some(Offset { x: 0, y: (spec_row(heading, is_idle) * Player::ROW_SIZE) as u32 })
        },
    }
}

impl Player {
    /// Width of the sprite sheet in pixels.
    pub const SHEET_WIDTH: u32 = 1200;

    /// Height of the sprite sheet in pixels.
    pub const SHEET_HEIGHT: u32 = 1040;

    /// Columns of the sheet.
    pub const FULL_COLUMN_COUNT: usize = 10;

    /// Rows of the sheet.
    pub const ROW_COUNT: usize = 8;

    /// Width of a tile: the sheet's width over its columns.
    pub const COLUMN_SIZE: u32 = 120;

    /// Height of a tile: the sheet's height over its rows.
    pub const ROW_SIZE: u32 = 130;

    /// The number of frames in the row for `heading`, idle or walking.
    pub fn column_count(heading: Heading, is_idle: bool) -> (r: usize)
        ensures
            r == spec_column_count(heading, is_idle),
    {
        if is_idle {
            match heading {
                Heading::North => 1,
                _ => 3,
            }
        } else {
            Self::FULL_COLUMN_COUNT
        }
    }

    /// The row of the sheet for `heading`, idle or walking.
    pub fn row(heading: Heading, is_idle: bool) -> (r: usize)
        ensures
            r == spec_row(heading, is_idle),
            r < Self::ROW_COUNT,
    {
        match (heading, is_idle) {
            (Heading::South, true) => 0,
            (Heading::West, true) => 1,
            (Heading::North, true) => 2,
            (Heading::East, true) => 3,
            (Heading::South, false) => 4,
            (Heading::West, false) => 5,
            (Heading::North, false) => 6,
            (Heading::East, false) => 7,
        }
    }

    /// Pixel offset of the row for `heading`, idle or walking; the first
    /// row starts at the corner and needs none.
    pub fn offset(heading: Heading, is_idle: bool) -> (r: Option<Offset>)
        ensures
            r == spec_layout(heading, is_idle).offset,
    {
        match (heading, is_idle) {
            (Heading::South, true) => None,
            _ => {
                let row = Self::row(heading, is_idle) as u32;
                Some(Offset { x: 0, y: row * Self::ROW_SIZE })
            },
        }
    }

    /// The slice of the sheet that animates `heading`, idle or walking.
    pub fn layout(heading: Heading, is_idle: bool) -> (r: GridLayout)
        ensures
            r == spec_layout(heading, is_idle),
            match r.offset {
                Some(o) => o.x == 0 && o.y + r.tile_height <= Self::SHEET_HEIGHT,
                None => true,
            },
            r.columns as int * r.tile_width <= Self::SHEET_WIDTH,
    {
        assert(Self::FULL_COLUMN_COUNT == 10 && Self::COLUMN_SIZE == 120);
        GridLayout {
            tile_width: Self::COLUMN_SIZE,
            tile_height: Self::ROW_SIZE,
            columns: Self::column_count(heading, is_idle),
            rows: 1,
            offset: Self::offset(heading, is_idle),
        }
    }

    /// The whole sheet cut into its tiles.
    pub open spec fn sheet_spec() -> GridLayout {
        GridLayout {
            tile_width: Self::COLUMN_SIZE,
            tile_height: Self::ROW_SIZE,
            columns: Self::FULL_COLUMN_COUNT,
            rows: Self::ROW_COUNT,
            offset: None,
        }
    }

    /// The whole sheet as one grid, before any heading has been chosen.
    pub fn sheet() -> (r: GridLayout)
        ensures
            r == Self::sheet_spec(),
            r.columns as int * r.tile_width == Self::SHEET_WIDTH,
            r.rows as int * r.tile_height == Self::SHEET_HEIGHT,
    {
        assert(Self::FULL_COLUMN_COUNT == 10 && Self::ROW_COUNT == 8);
        assert(Self::COLUMN_SIZE == 120 && Self::ROW_SIZE == 130);
        GridLayout {
            tile_width: Self::COLUMN_SIZE,
            tile_height: Self::ROW_SIZE,
            columns: Self::FULL_COLUMN_COUNT,
            rows: Self::ROW_COUNT,
            offset: None,
        }
    }
}

} // verus!
