use crate::emotion::{same_text, EmoColor};
use crate::random::random_usize_in;
use notan::prelude::Random;
use vstd::prelude::*;

verus! {

/// Most columns a freshly laid out tile grid gets (unless there are more tiles).
pub const MAX_COLS: usize = 5;

/// Most rows a freshly laid out tile grid gets.
pub const MAX_ROWS: usize = 5;

/// The grid of tiles: `rows` x `cols` tiles, with one representation (such as a
/// color transition) per tile in `reprs`, row after row.
pub struct TilesLayout<T> {
    pub rows: usize,
    pub cols: usize,
    pub reprs: Vec<Vec<T>>,
}

/// Whether `item` was made by `T::default()`.
pub open spec fn made_by_default<T: Default>(item: T) -> bool {
    call_ensures(T::default, (), item)
}

/// What a tile appended at column `k` of a row may be, given the first row as it ends
/// up (`first`) and how many tiles the first row had when it was appended
/// (`first_len`): a fresh default tile if the first row was empty, a clone of its
/// first tile if it had one, and a clone of one of its tiles otherwise.
pub open spec fn appended_tile_ok<T: Clone + Default>(first: Seq<T>, first_len: int, item: T) -> bool {
    if first_len == 0 {
        made_by_default(item)
    } else if first_len == 1 {
        cloned(first[0], item)
    } else {
        exists|s: int| 0 <= s < first_len && cloned(#[trigger] first[s], item)
    }
}

impl<T> TilesLayout<T> {
    /// An empty layout.
    pub fn none() -> (layout: Self)
        ensures
            layout.rows == 0,
            layout.cols == 0,
            layout.reprs@.len() == 0,
    {
        TilesLayout { rows: 0, cols: 0, reprs: Vec::new() }
    }

    /// Every one of the `rows` rows holds `cols` tiles.
    pub open spec fn is_rectangular(&self) -> bool {
        &&& self.reprs@.len() == self.rows
        &&& forall|r: int| 0 <= r < self.rows ==> (#[trigger] self.reprs@[r])@.len() == self.cols
    }
}

impl<T: Clone + Default> TilesLayout<T> {
    /// Bring row `row` to `cols` tiles: drop the tiles past `cols`, or append tiles made
    /// after the first row (see [`appended_tile_ok`]), picking one of its tiles at
    /// random when it has several.
    pub fn manage_cols_in_row(&mut self, rng: &mut Random, row: usize)
        requires
            row < old(self).reprs@.len(),
        ensures
            final(self).rows == old(self).rows,
            final(self).cols == old(self).cols,
            final(self).reprs@.len() == old(self).reprs@.len(),
            forall|r: int|
                0 <= r < old(self).reprs@.len() && r != row ==> #[trigger] final(self).reprs@[r]
                    == old(self).reprs@[r],
            final(self).reprs@[row as int]@.len() == old(self).cols,
            forall|k: int|
                0 <= k < old(self).cols && k < old(self).reprs@[row as int]@.len()
                    ==> #[trigger] final(self).reprs@[row as int]@[k] == old(
                    self,
                ).reprs@[row as int]@[k],
            forall|k: int|
                old(self).reprs@[row as int]@.len() <= k < old(self).cols ==> appended_tile_ok(
                    final(self).reprs@[0]@,
                    if row == 0 {
                        k
                    } else {
                        old(self).reprs@[0]@.len() as int
                    },
                    #[trigger] final(self).reprs@[row as int]@[k],
                ),
    {
        let reprs_cols = self.reprs[row].len();
        let cols = self.cols;
        if cols < reprs_cols {
            self.reprs[row].truncate(cols);
        } else if cols > reprs_cols {
            let ghost first_before = self.reprs@[0]@;
            let mut col: usize = reprs_cols;
            while col < cols
                invariant
                    self.rows == old(self).rows,
                    self.cols == cols,
                    cols == old(self).cols,
                    row < self.reprs@.len(),
                    reprs_cols == old(self).reprs@[row as int]@.len(),
                    reprs_cols <= col <= cols,
                    self.reprs@.len() == old(self).reprs@.len(),
                    forall|r: int|
                        0 <= r < old(self).reprs@.len() && r != row ==> #[trigger] self.reprs@[r]
                            == old(self).reprs@[r],
                    self.reprs@[row as int]@.len() == col,
                    forall|k: int|
                        0 <= k < reprs_cols ==> #[trigger] self.reprs@[row as int]@[k] == old(
                            self,
                        ).reprs@[row as int]@[k],
                    row == 0 ==> self.reprs@[0]@.len() == col,
                    row != 0 ==> self.reprs@[0] == old(self).reprs@[0],
                    forall|k: int|
                        reprs_cols <= k < col ==> appended_tile_ok(
                            self.reprs@[0]@,
                            if row == 0 {
                                k
                            } else {
                                old(self).reprs@[0]@.len() as int
                            },
                            #[trigger] self.reprs@[row as int]@[k],
                        ),
                decreases cols - col,
            {
                let ghost before = self.reprs@;
                let first_row_len = self.reprs[0].len();
                let item: T;
                let ghost pick: int = 0;
                if first_row_len == 0 {
                    item = T::default();
                    assert(made_by_default(item));
                } else if first_row_len == 1 {
                    item = self.reprs[0][0].clone();
                    assert(cloned(before[0]@[0], item));
                } else {
                    let selection = random_usize_in(rng, 0, first_row_len - 1);
                    item = self.reprs[0][selection].clone();
                    proof {
                        pick = selection as int;
                    }
                    assert(cloned(before[0]@[pick], item));
                }
                assert(appended_tile_ok(before[0]@, first_row_len as int, item));
                self.reprs[row].push(item);
                proof {
                    assert(self.reprs@[row as int]@ == before[row as int]@.push(item));
                    if row == 0 {
                        assert(self.reprs@[0]@ == before[0]@.push(item));
                    } else {
                        assert(self.reprs@[0] == before[0]);
                    }
                    assert forall|k: int|
                        reprs_cols <= k < col + 1 implies appended_tile_ok(
                        self.reprs@[0]@,
                        if row == 0 {
                            k
                        } else {
                            old(self).reprs@[0]@.len() as int
                        },
                        #[trigger] self.reprs@[row as int]@[k],
                    ) by {
                        let fl = if row == 0 {
                            k
                        } else {
                            old(self).reprs@[0]@.len() as int
                        };
                        let first = self.reprs@[0]@;
                        assert(self.reprs@[row as int]@[k] == before[row as int]@.push(item)[k]);
                        if k < col {
                            assert(appended_tile_ok(before[0]@, fl, before[row as int]@[k]));
                        }
                        let prev = if k < col {
                            before[row as int]@[k]
                        } else {
                            item
                        };
                        assert(appended_tile_ok(before[0]@, fl, prev));
                        assert(fl <= before[0]@.len());
                        assert forall|s: int| 0 <= s < fl implies #[trigger] first[s]
                            == before[0]@[s] by {}
                        if fl >= 2 {
                            let w = choose|s: int| 0 <= s < fl && cloned(#[trigger] before[0]@[s], prev);
                            assert(first[w] == before[0]@[w]);
                        } else if fl == 1 {
                            assert(first[0] == before[0]@[0]);
                        }
                    }
                }
                col = col + 1;
            }
        }
    }
}

impl<T: Clone + Default> TilesLayout<T> {
    /// Bring the layout to `rows` rows of `cols` tiles each: drop the rows past `rows`,
    /// add empty rows up to `rows`, then bring every row to `cols` tiles, the first row
    /// first (see [`TilesLayout::manage_cols_in_row`]). Tiles that were already in place
    /// stay; every tile added outside the first row is a clone of a tile of the first row.
    pub fn grow_or_shrink_layout(&mut self, rng: &mut Random)
        ensures
            final(self).rows == old(self).rows,
            final(self).cols == old(self).cols,
            final(self).is_rectangular(),
            forall|r: int, k: int|
                0 <= r < old(self).rows && r < old(self).reprs@.len() && 0 <= k < old(self).cols
                    && k < old(self).reprs@[r]@.len() ==> #[trigger] final(self).reprs@[r]@[k]
                    == old(self).reprs@[r]@[k],
            old(self).rows > 0 ==> forall|k: int|
                (if old(self).reprs@.len() > 0 {
                    old(self).reprs@[0]@.len() as int
                } else {
                    0
                }) <= k < old(self).cols ==> appended_tile_ok(
                    final(self).reprs@[0]@,
                    k,
                    #[trigger] final(self).reprs@[0]@[k],
                ),
            forall|r: int, k: int|
                1 <= r < old(self).rows && (if r < old(self).reprs@.len() {
                    old(self).reprs@[r]@.len() as int
                } else {
                    0
                }) <= k < old(self).cols ==> appended_tile_ok(
                    final(self).reprs@[0]@,
                    old(self).cols as int,
                    #[trigger] final(self).reprs@[r]@[k],
                ),
    {
        let reprs_rows = self.reprs.len();
        let rows = self.rows;
        let cols = self.cols;
        if rows < reprs_rows {
            self.reprs.truncate(rows);
        }
        let ghost start = self.reprs@;
        let mut row: usize = 0;
        while row < rows
            invariant
                self.rows == rows,
                self.cols == cols,
                rows == old(self).rows,
                cols == old(self).cols,
                reprs_rows == old(self).reprs@.len(),
                row <= rows,
                start.len() <= rows,
                start.len() == if rows < reprs_rows {
                    rows as int
                } else {
                    reprs_rows as int
                },
                forall|r: int| 0 <= r < start.len() ==> #[trigger] start[r] == old(self).reprs@[r],
                self.reprs@.len() == if row < start.len() {
                    start.len() as int
                } else {
                    row as int
                },
                forall|r: int|
                    row <= r < start.len() ==> #[trigger] self.reprs@[r] == start[r],
                forall|r: int| 0 <= r < row ==> (#[trigger] self.reprs@[r])@.len() == cols,
                forall|r: int, k: int|
                    0 <= r < row && r < start.len() && 0 <= k < cols && k < start[r]@.len()
                        ==> #[trigger] self.reprs@[r]@[k] == start[r]@[k],
                row > 0 ==> forall|k: int|
                    (if start.len() > 0 {
                        start[0]@.len() as int
                    } else {
                        0
                    }) <= k < cols ==> appended_tile_ok(
                        self.reprs@[0]@,
                        k,
                        #[trigger] self.reprs@[0]@[k],
                    ),
                forall|r: int, k: int|
                    1 <= r < row && (if r < start.len() {
                        start[r]@.len() as int
                    } else {
                        0
                    }) <= k < cols ==> appended_tile_ok(
                        self.reprs@[0]@,
                        cols as int,
                        #[trigger] self.reprs@[r]@[k],
                    ),
            decreases rows - row,
        {
            if row >= reprs_rows {
                self.reprs.push(Vec::new());
            }
            let ghost before = self.reprs@;
            assert(row >= start.len() ==> before[row as int]@.len() == 0);
            assert(row < start.len() ==> before[row as int] == start[row as int]);
            self.manage_cols_in_row(rng, row);
            proof {
                if row > 0 {
                    assert(self.reprs@[0] == before[0]);
                    assert(before[0]@.len() == cols);
                }
            }
            row = row + 1;
        }
        proof {
            if rows < reprs_rows {
                assert(start.len() == rows);
            }
        }
    }

    /// Lay the tiles out anew: as many columns as there are tiles when there are more
    /// than [`MAX_COLS`], otherwise a random number of columns from the number of tiles
    /// up to [`MAX_COLS`]; a random number of rows from 1 to [`MAX_ROWS`]; then bring the
    /// tiles to that shape (see [`TilesLayout::grow_or_shrink_layout`]).
    pub fn refresh(&mut self, rng: &mut Random, num_tiles: usize)
        ensures
            num_tiles > MAX_COLS ==> final(self).cols == num_tiles,
            num_tiles <= MAX_COLS ==> num_tiles <= final(self).cols <= MAX_COLS,
            1 <= final(self).rows <= MAX_ROWS,
            final(self).is_rectangular(),
            forall|r: int, k: int|
                0 <= r < final(self).rows && r < old(self).reprs@.len() && 0 <= k
                    < final(self).cols && k < old(self).reprs@[r]@.len() ==> #[trigger] final(self).reprs@[r]@[k]
                    == old(self).reprs@[r]@[k],
            forall|k: int|
                (if old(self).reprs@.len() > 0 {
                    old(self).reprs@[0]@.len() as int
                } else {
                    0
                }) <= k < final(self).cols ==> appended_tile_ok(
                    final(self).reprs@[0]@,
                    k,
                    #[trigger] final(self).reprs@[0]@[k],
                ),
            forall|r: int, k: int|
                1 <= r < final(self).rows && (if r < old(self).reprs@.len() {
                    old(self).reprs@[r]@.len() as int
                } else {
                    0
                }) <= k < final(self).cols ==> appended_tile_ok(
                    final(self).reprs@[0]@,
                    final(self).cols as int,
                    #[trigger] final(self).reprs@[r]@[k],
                ),
    {
        if num_tiles > MAX_COLS {
            self.cols = num_tiles;
        } else {
            self.cols = random_usize_in(rng, num_tiles, MAX_COLS);
        }
        self.rows = random_usize_in(rng, 1, MAX_ROWS);
        self.grow_or_shrink_layout(rng);
    }
}

/// Represents different Tile "baselines/archetypes"
///
/// For now just contains an EmoColor, but anticipating expansion
pub struct Tile {
    pub emocolor: EmoColor,
}

impl Tile {
    /// A tile with its own copy of the given emotion color.
    pub fn new(emocolor: &EmoColor) -> (tile: Self)
        ensures
            tile.emocolor == *emocolor,
    {
        Self {
            emocolor: EmoColor {
                emotion: emocolor.emotion.clone(),
                hsv: emocolor.hsv,
                sentiment: emocolor.sentiment,
            },
        }
    }
}

/// The shadow layers drawn under a paragraph.
#[derive(Clone, Copy, Debug, PartialEq, Eq, Structural)]
pub enum TextShadow {
    /// No shadow.
    NoShadow,
    /// A shadow close to the text.
    Near,
    /// A faint shadow farther from the text, and a shadow close to it.
    FarAndNear,
}

/// The shadow layers of a text shadow style: "Full" draws a far and a near shadow,
/// "Moderate" a near one, and any other style ("None" among them) no shadow.
pub fn text_shadow_layers(style: &str) -> (layers: TextShadow)
    ensures
        style@ == "Full"@ ==> layers == TextShadow::FarAndNear,
        style@ != "Full"@ && style@ == "Moderate"@ ==> layers == TextShadow::Near,
        style@ != "Full"@ && style@ != "Moderate"@ ==> layers == TextShadow::NoShadow,
{
    if same_text(style, "Full") {
        TextShadow::FarAndNear
    } else if same_text(style, "Moderate") {
        TextShadow::Near
    } else {
        TextShadow::NoShadow
    }
}

} // verus!
