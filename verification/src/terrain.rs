//! Terrain map data, texture slots, and the rules that turn a terrain map
//! into textured tiles, grid triangles and grass cells.
use crate::scene_paths::{
    default_texture_slot_candidates, normalize_asset_path, spec_default_texture_slot_candidates,
    spec_normalize_asset_path,
};
use crate::text::{ascii_lower_chars, ascii_lower_seq, contains_chars, contains_seq, str_chars, trim, trim_chars};
use std::collections::{HashMap, HashSet};
use vstd::std_specs::hash::spec_hash_map_iter;
use vstd::std_specs::iter::IteratorSpec;
use vstd::prelude::*;

verus! {

broadcast use vstd::std_specs::hash::group_hash_axioms;

/// Layer value meaning "no texture on this layer".
pub const TERRAIN_NO_LAYER_SLOT: u8 = 255;

/// Number of terrain cells along each side of a grass chunk.
pub const GRASS_CHUNK_SIZE: usize = 8;

/// Header of a terrain map file.
#[derive(Clone, Copy, Debug, Default, PartialEq, Eq, Structural)]
pub struct TerrainMapHeader {
    pub version: u8,
    pub map_number: u8,
}

/// The two texture layers and the blend alpha of one terrain cell.
#[derive(Clone, Copy, Debug, PartialEq, Eq, Structural)]
pub struct TerrainMapSample {
    pub layer1: u8,
    pub layer2: u8,
    pub alpha: u8,
}

/// A terrain map: per-cell texture layers and alpha, stored row by row.
#[derive(Clone, Debug)]
pub struct TerrainMapData {
    pub header: TerrainMapHeader,
    pub terrain_size: u32,
    pub layer1: Vec<Vec<u8>>,
    pub layer2: Vec<Vec<u8>>,
    pub alpha: Vec<Vec<u8>>,
}

/// The value at column `x` of row `z`, if both exist.
pub open spec fn grid_cell(grid: Seq<Vec<u8>>, x: int, z: int) -> Option<u8> {
    if 0 <= z < grid.len() && 0 <= x < grid[z]@.len() {
        Some(grid[z]@[x])
    } else {
        None
    }
}

fn grid_get(grid: &Vec<Vec<u8>>, x: usize, z: usize) -> (r: Option<u8>)
    ensures
        r == grid_cell(grid@, x as int, z as int),
{
    if z < grid.len() && x < grid[z].len() {
        Some(grid[z][x])
    } else {
        None
    }
}

impl TerrainMapData {
    /// Number of columns: the length of the first `layer1` row.
    pub open spec fn spec_width(&self) -> nat {
        if self.layer1@.len() > 0 {
            self.layer1@[0]@.len()
        } else {
            0
        }
    }

    /// Number of rows of `layer1`.
    pub open spec fn spec_height(&self) -> nat {
        self.layer1@.len()
    }

    /// The cell at `(x, z)`, present only where all three grids have it.
    pub open spec fn spec_sample(&self, x: int, z: int) -> Option<TerrainMapSample> {
        match (
            grid_cell(self.layer1@, x, z),
            grid_cell(self.layer2@, x, z),
            grid_cell(self.alpha@, x, z),
        ) {
            (Some(layer1), Some(layer2), Some(alpha)) => Some(
                TerrainMapSample { layer1, layer2, alpha },
            ),
            _ => None,
        }
    }

    pub fn width(&self) -> (r: usize)
        ensures
            r == self.spec_width(),
    {
        if self.layer1.len() > 0 {
            self.layer1[0].len()
        } else {
            0
        }
    }

    pub fn height(&self) -> (r: usize)
        ensures
            r == self.spec_height(),
    {
        self.layer1.len()
    }

    pub fn sample(&self, x: usize, z: usize) -> (r: Option<TerrainMapSample>)
        ensures
            r == self.spec_sample(x as int, z as int),
    {
        let layer1 = grid_get(&self.layer1, x, z);
        let layer2 = grid_get(&self.layer2, x, z);
        let alpha = grid_get(&self.alpha, x, z);
        match (layer1, layer2, alpha) {
            (Some(layer1), Some(layer2), Some(alpha)) => Some(
                TerrainMapSample { layer1, layer2, alpha },
            ),
            _ => None,
        }
    }
}

/// Texture paths of a world's terrain slots.
#[derive(Clone, Debug, Default)]
pub struct TerrainTextureSlotsData {
    pub world: Option<u32>,
    pub slots: HashMap<u16, String>,
}

impl TerrainTextureSlotsData {
    /// The path of `slot`, where one is given and it is not blank.
    pub open spec fn spec_path_for_slot(&self, slot: u8) -> Option<Seq<char>> {
        let key = slot as u16;
        if self.slots@.contains_key(key) && trim(self.slots@[key]@).len() > 0 {
            Some(self.slots@[key]@)
        } else {
            None
        }
    }

    pub fn path_for_slot(&self, slot: u8) -> (r: Option<&str>)
        ensures
            match r {
                Some(path) => self.spec_path_for_slot(slot) == Some(path@),
                None => self.spec_path_for_slot(slot) is None,
            },
    {
        let key: u16 = slot as u16;
        match self.slots.get(&key) {
            Some(path) => {
                let chars = str_chars(path.as_str());
                let trimmed = trim_chars(&chars);
                if trimmed.len() > 0 {
                    Some(path.as_str())
                } else {
                    None
                }
            },
            None => None,
        }
    }
}

/// Whether a texture of this size is a wide billboard strip: at least twice
/// as wide as it is high.
pub open spec fn spec_is_billboard_dimensions(width: u32, height: u32) -> bool {
    height > 0 && width >= 2 * height
}

/// Whether a texture of these dimensions is a billboard; see [`spec_is_billboard_dimensions`].
pub fn is_billboard_dimensions(width: u32, height: u32) -> (r: bool)
    requires
        height < 0x8000_0000,
    ensures
        r == spec_is_billboard_dimensions(width, height),
{
    height > 0 && width >= height * 2
}

/// The eight bytes every PNG file starts with.
pub open spec fn png_signature() -> Seq<u8> {
    seq![0x89u8, 0x50u8, 0x4eu8, 0x47u8, 0x0du8, 0x0au8, 0x1au8, 0x0au8]
}

/// The chunk type of the PNG image header, `IHDR`.
pub open spec fn ihdr_tag() -> Seq<u8> {
    seq![0x49u8, 0x48u8, 0x44u8, 0x52u8]
}

/// Big-endian value of four bytes.
pub open spec fn be_u32_value(b0: u8, b1: u8, b2: u8, b3: u8) -> int {
    b0 * 0x100_0000 + b1 * 0x1_0000 + b2 * 0x100 + b3
}

/// Width and height read from the image header of PNG bytes.
pub open spec fn spec_png_dimensions(bytes: Seq<u8>) -> Option<(u32, u32)> {
    if bytes.len() >= 24 && bytes.subrange(0, 8) == png_signature() && bytes.subrange(12, 16)
        == ihdr_tag() {
        Some(
            (
                be_u32_value(bytes[16], bytes[17], bytes[18], bytes[19]) as u32,
                be_u32_value(bytes[20], bytes[21], bytes[22], bytes[23]) as u32,
            ),
        )
    } else {
        None
    }
}

fn be_u32(b0: u8, b1: u8, b2: u8, b3: u8) -> (r: u32)
    ensures
        r == be_u32_value(b0, b1, b2, b3),
{
    (b0 as u32) * 0x100_0000 + (b1 as u32) * 0x1_0000 + (b2 as u32) * 0x100 + (b3 as u32)
}

/// Reads the image size from the first bytes of a PNG file.
pub fn parse_png_dimensions(bytes: &[u8]) -> (r: Option<(u32, u32)>)
    ensures
        r == spec_png_dimensions(bytes@),
{
    if bytes.len() < 24 {
        return None;
    }
    let signature: [u8; 8] = [0x89, 0x50, 0x4e, 0x47, 0x0d, 0x0a, 0x1a, 0x0a];
    let tag: [u8; 4] = [0x49, 0x48, 0x44, 0x52];
    assert(signature@ =~= png_signature());
    assert(tag@ =~= ihdr_tag());
    let mut i: usize = 0;
    while i < 8
        invariant
            i <= 8,
            bytes@.len() >= 24,
            signature@ == png_signature(),
            forall|j: int| 0 <= j < i ==> bytes@[j] == png_signature()[j],
        decreases 8 - i,
    {
        if bytes[i] != signature[i] {
            assert(bytes@.subrange(0, 8)[i as int] != png_signature()[i as int]);
            return None;
        }
        i = i + 1;
    }
    assert(bytes@.subrange(0, 8) =~= png_signature());
    let mut k: usize = 0;
    while k < 4
        invariant
            k <= 4,
            bytes@.len() >= 24,
            tag@ == ihdr_tag(),
            forall|j: int| 0 <= j < k ==> bytes@[12 + j] == ihdr_tag()[j],
        decreases 4 - k,
    {
        if bytes[12 + k] != tag[k] {
            assert(bytes@.subrange(12, 16)[k as int] != ihdr_tag()[k as int]);
            return None;
        }
        k = k + 1;
    }
    assert(bytes@.subrange(12, 16) =~= ihdr_tag());
    let width = be_u32(bytes[16], bytes[17], bytes[18], bytes[19]);
    let height = be_u32(bytes[20], bytes[21], bytes[22], bytes[23]);
    Some((width, height))
}

/// The first of slots 2, 3 and 4 whose texture resolves.
pub open spec fn spec_fallback_ground_slot(resolved: Set<u8>) -> Option<u8> {
    if resolved.contains(2) {
        Some(2)
    } else if resolved.contains(3) {
        Some(3)
    } else if resolved.contains(4) {
        Some(4)
    } else {
        None
    }
}

/// Picks the fallback ground slot among the slots whose texture resolves.
pub fn find_fallback_ground_slot(resolved_slots: &HashSet<u8>) -> (r: Option<u8>)
    ensures
        r == spec_fallback_ground_slot(resolved_slots@),
{
    let candidates: [u8; 3] = [2, 3, 4];
    let mut i: usize = 0;
    while i < 3
        invariant
            i <= 3,
            candidates@ == seq![2u8, 3u8, 4u8],
            forall|j: int| 0 <= j < i ==> !resolved_slots@.contains(#[trigger] candidates@[j]),
        decreases 3 - i,
    {
        if resolved_slots.contains(&candidates[i]) {
            return Some(candidates[i]);
        }
        i = i + 1;
    }
    None
}


/// The six vertex indices, two triangles, of the grid cell whose top-left
/// vertex is `(x, z)` in a grid `width` vertices wide.
pub open spec fn grid_cell_indices(width: nat, x: nat, z: nat) -> Seq<u32> {
    let top_left = z * width + x;
    let bottom_left = (z + 1) * width + x;
    seq![
        top_left as u32,
        bottom_left as u32,
        (top_left + 1) as u32,
        (top_left + 1) as u32,
        bottom_left as u32,
        (bottom_left + 1) as u32,
    ]
}

/// Indices of the first `cols` cells of row `z`.
pub open spec fn grid_row_indices(width: nat, z: nat, cols: nat) -> Seq<u32>
    decreases cols,
{
    if cols == 0 {
        Seq::empty()
    } else {
        grid_row_indices(width, z, (cols - 1) as nat) + grid_cell_indices(
            width,
            (cols - 1) as nat,
            z,
        )
    }
}

/// Indices of the first `rows` rows of cells.
pub open spec fn grid_rows_indices(width: nat, rows: nat) -> Seq<u32>
    decreases rows,
{
    if rows == 0 {
        Seq::empty()
    } else {
        grid_rows_indices(width, (rows - 1) as nat) + grid_row_indices(
            width,
            (rows - 1) as nat,
            (width - 1) as nat,
        )
    }
}

/// Triangle-list indices of a `width` by `height` vertex grid, cell by cell,
/// row by row.
pub open spec fn spec_grid_indices(width: nat, height: nat) -> Seq<u32> {
    grid_rows_indices(width, (height - 1) as nat)
}

/// Builds the triangle-list indices of a vertex grid.
pub fn build_grid_indices(width: usize, height: usize) -> (r: Vec<u32>)
    requires
        width >= 1,
        height >= 1,
        width * height <= 0x1_0000_0000,
        width * height <= usize::MAX,
    ensures
        r@ == spec_grid_indices(width as nat, height as nat),
{
    let mut indices: Vec<u32> = Vec::new();
    let mut z: usize = 0;
    let mut row_start: usize = 0;
    while z + 1 < height
        invariant
            width >= 1,
            height >= 1,
            width * height <= 0x1_0000_0000,
            width * height <= usize::MAX,
            z + 1 <= height,
            row_start == z * width,
            indices@ == grid_rows_indices(width as nat, z as nat),
        decreases height - z,
    {
        let mut x: usize = 0;
        while x + 1 < width
            invariant
                width >= 1,
                width * height <= 0x1_0000_0000,
                width * height <= usize::MAX,
                z + 1 < height,
                x + 1 <= width,
                row_start == z * width,
                indices@ == grid_rows_indices(width as nat, z as nat) + grid_row_indices(
                    width as nat,
                    z as nat,
                    x as nat,
                ),
            decreases width - x,
        {
            assert((z + 2) * width <= height * width) by (nonlinear_arith)
                requires
                    z + 2 <= height,
            ;
            assert((z + 1) * width == z * width + width) by (nonlinear_arith);
            assert((z + 2) * width == z * width + 2 * width) by (nonlinear_arith);
            assert(height * width == width * height) by (nonlinear_arith);
            let top_left = row_start + x;
            let bottom_left = row_start + width + x;
            assert(bottom_left + 1 <= 0x1_0000_0000);
            let tl = top_left as u32;
            let bl = bottom_left as u32;
            indices.push(tl);
            indices.push(bl);
            indices.push(tl + 1);
            indices.push(tl + 1);
            indices.push(bl);
            indices.push(bl + 1);
            proof {
                let w = width as nat;
                assert(grid_cell_indices(w, x as nat, z as nat) =~= seq![
                    tl,
                    bl,
                    (tl + 1) as u32,
                    (tl + 1) as u32,
                    bl,
                    (bl + 1) as u32,
                ]);
                assert(grid_row_indices(w, z as nat, (x + 1) as nat) == grid_row_indices(
                    w,
                    z as nat,
                    x as nat,
                ) + grid_cell_indices(w, x as nat, z as nat));
                assert(indices@ =~= grid_rows_indices(w, z as nat) + grid_row_indices(
                    w,
                    z as nat,
                    (x + 1) as nat,
                ));
            }
            x = x + 1;
        }
        proof {
            assert(grid_rows_indices(width as nat, (z + 1) as nat) == grid_rows_indices(
                width as nat,
                z as nat,
            ) + grid_row_indices(width as nat, z as nat, (width - 1) as nat));
            assert((z + 1) * width == z * width + width) by (nonlinear_arith);
            assert((z + 2) * width <= height * width) by (nonlinear_arith)
                requires
                    z + 2 <= height,
            ;
            assert((z + 2) * width == z * width + 2 * width) by (nonlinear_arith);
            assert(height * width == width * height) by (nonlinear_arith);
        }
        row_start = row_start + width;
        z = z + 1;
    }
    indices
}


proof fn lemma_grid_row_indices(width: nat, z: nat, cols: nat)
    requires
        cols + 1 <= width,
        (z + 2) * width <= 0x1_0000_0000,
    ensures
        grid_row_indices(width, z, cols).len() == 6 * cols,
        forall|i: int|
            0 <= i < 6 * cols ==> (#[trigger] grid_row_indices(width, z, cols)[i]) < (z + 2)
                * width,
    decreases cols,
{
    if cols > 0 {
        let c = (cols - 1) as nat;
        lemma_grid_row_indices(width, z, c);
        assert((z + 1) * width == z * width + width) by (nonlinear_arith);
        assert((z + 2) * width == z * width + 2 * width) by (nonlinear_arith);
        let prev = grid_row_indices(width, z, c);
        let cell = grid_cell_indices(width, c, z);
        assert forall|i: int| 0 <= i < 6 * cols implies (#[trigger] grid_row_indices(
            width,
            z,
            cols,
        )[i]) < (z + 2) * width by {
            if i < 6 * c {
                assert(grid_row_indices(width, z, cols)[i] == prev[i]);
            } else {
                assert(grid_row_indices(width, z, cols)[i] == cell[i - 6 * c]);
            }
        }
    }
}

proof fn lemma_grid_rows_indices(width: nat, rows: nat)
    requires
        width >= 1,
        (rows + 1) * width <= 0x1_0000_0000,
    ensures
        grid_rows_indices(width, rows).len() == 6 * (width - 1) * rows,
        forall|i: int|
            0 <= i < 6 * (width - 1) * rows ==> (#[trigger] grid_rows_indices(width, rows)[i]) < (
            rows + 1) * width,
    decreases rows,
{
    if rows > 0 {
        let r = (rows - 1) as nat;
        assert((r + 1) * width <= (rows + 1) * width) by (nonlinear_arith)
            requires
                r + 1 <= rows + 1,
        ;
        lemma_grid_rows_indices(width, r);
        lemma_grid_row_indices(width, r, (width - 1) as nat);
        assert(6 * (width - 1) * rows == 6 * (width - 1) * r + 6 * (width - 1)) by (
        nonlinear_arith)
            requires
                rows == r + 1,
        ;
        let prev = grid_rows_indices(width, r);
        let row = grid_row_indices(width, r, (width - 1) as nat);
        assert forall|i: int| 0 <= i < 6 * (width - 1) * rows implies (
        #[trigger] grid_rows_indices(width, rows)[i]) < (rows + 1) * width by {
            if i < 6 * (width - 1) * r {
                assert(grid_rows_indices(width, rows)[i] == prev[i]);
            } else {
                assert(grid_rows_indices(width, rows)[i] == row[i - 6 * (width - 1) * r]);
            }
        }
    }
}

/// The grid indices hold two triangles for each of the `(width - 1) * (height - 1)`
/// cells, and every index names a vertex of the grid.
pub proof fn lemma_grid_indices_in_range(width: nat, height: nat)
    requires
        width >= 1,
        height >= 1,
        width * height <= 0x1_0000_0000,
    ensures
        spec_grid_indices(width, height).len() == 6 * (width - 1) * (height - 1),
        forall|i: int|
            0 <= i < spec_grid_indices(width, height).len() ==> (#[trigger] spec_grid_indices(
                width,
                height,
            )[i]) < width * height,
{
    let rows = (height - 1) as nat;
    assert((rows + 1) * width == width * height) by (nonlinear_arith)
        requires
            rows + 1 == height,
    ;
    lemma_grid_rows_indices(width, rows);
}


/// Which of the two terrain render passes a tile belongs to.
#[derive(Clone, Copy, Debug, PartialEq, Eq, Structural, Hash)]
pub enum TerrainPass {
    Base,
    Alpha,
}

/// One textured tile of the terrain: the cell whose top-left vertex is
/// `(x, z)`, drawn with `texture_slot` in `pass`, with the blend alpha of
/// its four corners (top-left, top-right, bottom-right, bottom-left).
#[derive(Clone, Copy, Debug, PartialEq, Eq)]
pub struct TerrainTile {
    pub x: usize,
    pub z: usize,
    pub texture_slot: u8,
    pub pass: TerrainPass,
    pub alphas: [u8; 4],
}

/// The cell assumed where the map has none: grass, no second layer, no alpha.
pub open spec fn default_sample() -> TerrainMapSample {
    TerrainMapSample { layer1: 0, layer2: 255, alpha: 0 }
}

/// The map cell at `(x, z)`, or `fallback` where the map has none.
pub open spec fn sample_or(
    map: TerrainMapData,
    x: int,
    z: int,
    fallback: TerrainMapSample,
) -> TerrainMapSample {
    match map.spec_sample(x, z) {
        Some(sample) => sample,
        None => fallback,
    }
}

/// The four corners of the cell at `(x, z)`: top-left (or the default
/// cell), then top-right, bottom-right and bottom-left, each falling back to
/// the top-left one.
pub open spec fn cell_corners(map: TerrainMapData, x: int, z: int) -> (
    TerrainMapSample,
    TerrainMapSample,
    TerrainMapSample,
    TerrainMapSample,
) {
    let s1 = sample_or(map, x, z, default_sample());
    (s1, sample_or(map, x + 1, z, s1), sample_or(map, x + 1, z + 1, s1), sample_or(map, x, z + 1, s1))
}

/// Whether `slot` is one of the grass slots, where there are any.
pub open spec fn is_grass_slot(grass_slots: Option<Set<u8>>, slot: u8) -> bool {
    match grass_slots {
        Some(slots) => slots.contains(slot),
        None => false,
    }
}

/// A grass slot whose texture is a wide billboard strip: it is drawn by the
/// grass pass, not as a terrain tile.
pub open spec fn is_billboard_like_grass(
    grass_slots: Option<Set<u8>>,
    wide_slots: Set<u8>,
    slot: u8,
) -> bool {
    is_grass_slot(grass_slots, slot) && wide_slots.contains(slot)
}

/// The base texture of a cell whose top-left corner is `s1`: its second
/// layer where all four corners are opaque and it has one, else its first
/// layer; a billboard-like grass base is replaced by the second layer when
/// that is a non-grass texture, else by the fallback ground slot.
pub open spec fn spec_base_slot(
    s1: TerrainMapSample,
    opaque: bool,
    grass_slots: Option<Set<u8>>,
    wide_slots: Set<u8>,
    fallback: Option<u8>,
) -> u8 {
    let chosen = if opaque && s1.layer2 != TERRAIN_NO_LAYER_SLOT {
        s1.layer2
    } else {
        s1.layer1
    };
    if chosen != TERRAIN_NO_LAYER_SLOT && is_billboard_like_grass(grass_slots, wide_slots, chosen) {
        if s1.layer2 != TERRAIN_NO_LAYER_SLOT && !is_grass_slot(grass_slots, s1.layer2) {
            s1.layer2
        } else {
            match fallback {
                Some(slot) => slot,
                None => chosen,
            }
        }
    } else {
        chosen
    }
}

/// The tiles of the cell at `(x, z)`: a base tile unless its base slot is
/// empty, then an alpha overlay with its second layer where the cell is
/// partly transparent and that layer is set, differs from the base and is
/// not billboard-like grass.
pub open spec fn spec_cell_tiles(
    map: TerrainMapData,
    x: nat,
    z: nat,
    grass_slots: Option<Set<u8>>,
    wide_slots: Set<u8>,
    fallback: Option<u8>,
) -> Seq<TerrainTile> {
    let (s1, s2, s3, s4) = cell_corners(map, x as int, z as int);
    let opaque = s1.alpha == 255 && s2.alpha == 255 && s3.alpha == 255 && s4.alpha == 255;
    let has_alpha = s1.alpha > 0 || s2.alpha > 0 || s3.alpha > 0 || s4.alpha > 0;
    let base = spec_base_slot(s1, opaque, grass_slots, wide_slots, fallback);
    let base_tiles = if base != TERRAIN_NO_LAYER_SLOT {
        seq![
            TerrainTile {
                x: x as usize,
                z: z as usize,
                texture_slot: base,
                pass: TerrainPass::Base,
                alphas: [255u8, 255u8, 255u8, 255u8],
            },
        ]
    } else {
        Seq::empty()
    };
    let overlay = !opaque && has_alpha && s1.layer2 != TERRAIN_NO_LAYER_SLOT && s1.layer2 != base
        && !is_billboard_like_grass(grass_slots, wide_slots, s1.layer2);
    if overlay {
        base_tiles.push(
            TerrainTile {
                x: x as usize,
                z: z as usize,
                texture_slot: s1.layer2,
                pass: TerrainPass::Alpha,
                alphas: [s1.alpha, s2.alpha, s3.alpha, s4.alpha],
            },
        )
    } else {
        base_tiles
    }
}

/// How a cell is blended, where neither of its layers is billboard-like
/// grass. Its second layer is the base texture only when all four corner
/// alphas are 255 (the cell is fully covered by that layer); otherwise the
/// first layer is the base, drawn opaque. A cell that is partly covered
/// (some corner alpha below 255, some above 0) gets its second layer, where
/// set and different from the first, blended over the base as an alpha
/// tile carrying the four corner alphas in order: top-left, top-right,
/// bottom-right, bottom-left. A cell with no alpha at all gets no alpha tile.
pub proof fn lemma_cell_tiles_blend(
    map: TerrainMapData,
    x: nat,
    z: nat,
    grass_slots: Option<Set<u8>>,
    wide_slots: Set<u8>,
    fallback: Option<u8>,
)
    requires
        !is_billboard_like_grass(grass_slots, wide_slots, cell_corners(map, x as int, z as int).0.layer1),
        !is_billboard_like_grass(grass_slots, wide_slots, cell_corners(map, x as int, z as int).0.layer2),
    ensures
        ({
            let (s1, s2, s3, s4) = cell_corners(map, x as int, z as int);
            let tiles = spec_cell_tiles(map, x, z, grass_slots, wide_slots, fallback);
            let covered = s1.alpha == 255 && s2.alpha == 255 && s3.alpha == 255 && s4.alpha == 255;
            let clear = s1.alpha == 0 && s2.alpha == 0 && s3.alpha == 0 && s4.alpha == 0;
            let base_of = |slot: u8|
                TerrainTile {
                    x: x as usize,
                    z: z as usize,
                    texture_slot: slot,
                    pass: TerrainPass::Base,
                    alphas: [255u8, 255u8, 255u8, 255u8],
                };
            let blend = TerrainTile {
                x: x as usize,
                z: z as usize,
                texture_slot: s1.layer2,
                pass: TerrainPass::Alpha,
                alphas: [s1.alpha, s2.alpha, s3.alpha, s4.alpha],
            };
            &&& covered && s1.layer2 != 255 ==> tiles == seq![base_of(s1.layer2)]
            &&& !covered && s1.layer1 != 255 ==> tiles.len() >= 1 && tiles[0] == base_of(s1.layer1)
            &&& !covered && s1.layer1 == 255 ==> forall|i: int|
                0 <= i < tiles.len() ==> (#[trigger] tiles[i]).pass == TerrainPass::Alpha
            &&& !covered && !clear && s1.layer2 != 255 && s1.layer2 != s1.layer1 ==> tiles.len()
                >= 1 && tiles.last() == blend && tiles.len() == if s1.layer1 != 255 {
                2int
            } else {
                1int
            }
            &&& clear ==> tiles.len() <= 1 && forall|i: int|
                0 <= i < tiles.len() ==> (#[trigger] tiles[i]).pass == TerrainPass::Base
        }),
{
}

/// A cell whose base would be a billboard-like grass texture (its first
/// layer, the cell not being fully covered by a second layer) is drawn on a
/// ground texture instead: its second layer where that is set and is no
/// grass, else the fallback ground slot where there is one, else the grass
/// itself.
pub proof fn lemma_billboard_grass_base_replaced(
    map: TerrainMapData,
    x: nat,
    z: nat,
    grass_slots: Option<Set<u8>>,
    wide_slots: Set<u8>,
    fallback: Option<u8>,
)
    requires
        ({
            let (s1, s2, s3, s4) = cell_corners(map, x as int, z as int);
            &&& s1.layer1 != 255
            &&& is_billboard_like_grass(grass_slots, wide_slots, s1.layer1)
            &&& !(s1.alpha == 255 && s2.alpha == 255 && s3.alpha == 255 && s4.alpha == 255
                && s1.layer2 != 255)
        }),
    ensures
        ({
            let s1 = cell_corners(map, x as int, z as int).0;
            let tiles = spec_cell_tiles(map, x, z, grass_slots, wide_slots, fallback);
            let base_slot = if s1.layer2 != 255 && !is_grass_slot(grass_slots, s1.layer2) {
                s1.layer2
            } else if fallback is Some {
                fallback->0
            } else {
                s1.layer1
            };
            base_slot != 255 ==> tiles.len() >= 1 && tiles[0] == (TerrainTile {
                x: x as usize,
                z: z as usize,
                texture_slot: base_slot,
                pass: TerrainPass::Base,
                alphas: [255u8, 255u8, 255u8, 255u8],
            })
        }),
{
}

/// Tiles of the first `cols` cells of row `z`.
pub open spec fn spec_row_tiles(
    map: TerrainMapData,
    z: nat,
    cols: nat,
    grass_slots: Option<Set<u8>>,
    wide_slots: Set<u8>,
    fallback: Option<u8>,
) -> Seq<TerrainTile>
    decreases cols,
{
    if cols == 0 {
        Seq::empty()
    } else {
        spec_row_tiles(map, z, (cols - 1) as nat, grass_slots, wide_slots, fallback)
            + spec_cell_tiles(map, (cols - 1) as nat, z, grass_slots, wide_slots, fallback)
    }
}

/// Tiles of the first `rows` rows of `cols` cells each.
pub open spec fn spec_rows_tiles(
    map: TerrainMapData,
    rows: nat,
    cols: nat,
    grass_slots: Option<Set<u8>>,
    wide_slots: Set<u8>,
    fallback: Option<u8>,
) -> Seq<TerrainTile>
    decreases rows,
{
    if rows == 0 {
        Seq::empty()
    } else {
        spec_rows_tiles(map, (rows - 1) as nat, cols, grass_slots, wide_slots, fallback)
            + spec_row_tiles(map, (rows - 1) as nat, cols, grass_slots, wide_slots, fallback)
    }
}

/// Number of map cells used along one side: the map's own size, cut to
/// the mesh's.
pub open spec fn used_extent(map_extent: nat, mesh_extent: nat) -> nat {
    if map_extent < mesh_extent {
        map_extent
    } else {
        mesh_extent
    }
}

/// All terrain tiles, cell by cell and row by row, over the part of the
/// map that the mesh covers; none where the mesh or that part is narrower
/// than two vertices.
pub open spec fn spec_terrain_tiles(
    map: TerrainMapData,
    mesh_width: nat,
    mesh_height: nat,
    grass_slots: Option<Set<u8>>,
    wide_slots: Set<u8>,
    resolved_slots: Set<u8>,
) -> Seq<TerrainTile> {
    let map_width = used_extent(map.spec_width(), mesh_width);
    let map_height = used_extent(map.spec_height(), mesh_height);
    if mesh_width < 2 || mesh_height < 2 || map_width < 2 || map_height < 2 {
        Seq::empty()
    } else {
        spec_rows_tiles(
            map,
            (map_height - 1) as nat,
            (map_width - 1) as nat,
            grass_slots,
            wide_slots,
            spec_fallback_ground_slot(resolved_slots),
        )
    }
}

fn sample_or_default(map: &TerrainMapData, x: usize, z: usize, fallback: TerrainMapSample) -> (r:
    TerrainMapSample)
    ensures
        r == sample_or(*map, x as int, z as int, fallback),
{
    match map.sample(x, z) {
        Some(sample) => sample,
        None => fallback,
    }
}

fn grass_contains(grass_slots: Option<&HashSet<u8>>, slot: u8) -> (r: bool)
    ensures
        r == is_grass_slot(grass_view(grass_slots), slot),
{
    match grass_slots {
        Some(slots) => slots.contains(&slot),
        None => false,
    }
}

/// The set behind an optional grass-slot set.
pub open spec fn grass_view(grass_slots: Option<&HashSet<u8>>) -> Option<Set<u8>> {
    match grass_slots {
        Some(slots) => Some(slots@),
        None => None,
    }
}

/// Whether `slot` is a billboard-like grass slot; see [`is_billboard_like_grass`].
pub fn is_billboard_like_grass_slot(
    grass_slots: Option<&HashSet<u8>>,
    wide_slots: &HashSet<u8>,
    slot: u8,
) -> (r: bool)
    ensures
        r == is_billboard_like_grass(grass_view(grass_slots), wide_slots@, slot),
{
    grass_contains(grass_slots, slot) && wide_slots.contains(&slot)
}

fn cell_tiles(
    map: &TerrainMapData,
    x: usize,
    z: usize,
    grass_slots: Option<&HashSet<u8>>,
    wide_slots: &HashSet<u8>,
    fallback: Option<u8>,
    out: &mut Vec<TerrainTile>,
)
    requires
        x < usize::MAX,
        z < usize::MAX,
    ensures
        final(out)@ == old(out)@ + spec_cell_tiles(
            *map,
            x as nat,
            z as nat,
            grass_view(grass_slots),
            wide_slots@,
            fallback,
        ),
{
    let s1 = sample_or_default(map, x, z, TerrainMapSample { layer1: 0, layer2: 255, alpha: 0 });
    let s2 = sample_or_default(map, x + 1, z, s1);
    let s3 = sample_or_default(map, x + 1, z + 1, s1);
    let s4 = sample_or_default(map, x, z + 1, s1);
    let opaque = s1.alpha == 255 && s2.alpha == 255 && s3.alpha == 255 && s4.alpha == 255;
    let has_alpha = s1.alpha > 0 || s2.alpha > 0 || s3.alpha > 0 || s4.alpha > 0;
    let mut base = if opaque && s1.layer2 != TERRAIN_NO_LAYER_SLOT {
        s1.layer2
    } else {
        s1.layer1
    };
    if base != TERRAIN_NO_LAYER_SLOT && is_billboard_like_grass_slot(grass_slots, wide_slots, base) {
        if s1.layer2 != TERRAIN_NO_LAYER_SLOT && !grass_contains(grass_slots, s1.layer2) {
            base = s1.layer2;
        } else if let Some(slot) = fallback {
            base = slot;
        }
    }
    let ghost before = out@;
    if base != TERRAIN_NO_LAYER_SLOT {
        out.push(
            TerrainTile {
                x,
                z,
                texture_slot: base,
                pass: TerrainPass::Base,
                alphas: [255, 255, 255, 255],
            },
        );
    }
    if !opaque && has_alpha && s1.layer2 != TERRAIN_NO_LAYER_SLOT && s1.layer2 != base
        && !is_billboard_like_grass_slot(grass_slots, wide_slots, s1.layer2) {
        out.push(
            TerrainTile {
                x,
                z,
                texture_slot: s1.layer2,
                pass: TerrainPass::Alpha,
                alphas: [s1.alpha, s2.alpha, s3.alpha, s4.alpha],
            },
        );
    }
    proof {
        assert(out@ =~= before + spec_cell_tiles(
            *map,
            x as nat,
            z as nat,
            grass_view(grass_slots),
            wide_slots@,
            fallback,
        ));
    }
}


/// Lays out the textured tiles of the terrain; see [`spec_terrain_tiles`].
/// `wide_slots` are the slots whose texture is a wide billboard strip and
/// `resolved_slots` those whose texture file was found.
pub fn plan_terrain_tiles(
    map: &TerrainMapData,
    mesh_width: usize,
    mesh_height: usize,
    grass_slots: Option<&HashSet<u8>>,
    wide_slots: &HashSet<u8>,
    resolved_slots: &HashSet<u8>,
) -> (r: Vec<TerrainTile>)
    ensures
        r@ == spec_terrain_tiles(
            *map,
            mesh_width as nat,
            mesh_height as nat,
            grass_view(grass_slots),
            wide_slots@,
            resolved_slots@,
        ),
{
    let mut tiles: Vec<TerrainTile> = Vec::new();
    let map_width = if map.width() < mesh_width {
        map.width()
    } else {
        mesh_width
    };
    let map_height = if map.height() < mesh_height {
        map.height()
    } else {
        mesh_height
    };
    if mesh_width < 2 || mesh_height < 2 || map_width < 2 || map_height < 2 {
        return tiles;
    }
    let fallback = find_fallback_ground_slot(resolved_slots);
    let cols = map_width - 1;
    let rows = map_height - 1;
    let ghost grass = grass_view(grass_slots);
    let mut z: usize = 0;
    while z < rows
        invariant
            z <= rows,
            rows < usize::MAX,
            cols < usize::MAX,
            fallback == spec_fallback_ground_slot(resolved_slots@),
            grass == grass_view(grass_slots),
            tiles@ == spec_rows_tiles(*map, z as nat, cols as nat, grass, wide_slots@, fallback),
        decreases rows - z,
    {
        let mut x: usize = 0;
        while x < cols
            invariant
                x <= cols,
                z < rows,
                rows < usize::MAX,
                cols < usize::MAX,
                grass == grass_view(grass_slots),
                tiles@ == spec_rows_tiles(*map, z as nat, cols as nat, grass, wide_slots@, fallback)
                    + spec_row_tiles(*map, z as nat, x as nat, grass, wide_slots@, fallback),
            decreases cols - x,
        {
            cell_tiles(map, x, z, grass_slots, wide_slots, fallback, &mut tiles);
            proof {
                assert(tiles@ =~= spec_rows_tiles(
                    *map,
                    z as nat,
                    cols as nat,
                    grass,
                    wide_slots@,
                    fallback,
                ) + spec_row_tiles(*map, z as nat, (x + 1) as nat, grass, wide_slots@, fallback));
            }
            x = x + 1;
        }
        z = z + 1;
    }
    tiles
}


/// One render batch of terrain tiles: every tile of one texture slot in
/// one pass.
#[derive(Clone, Copy, Debug, PartialEq, Eq, Structural)]
pub struct TerrainBatchPlan {
    pub texture_slot: u8,
    pub pass: TerrainPass,
    pub tiles: usize,
}

impl TerrainBatchPlan {
    /// Two triangles per tile.
    pub fn triangles(&self) -> (r: usize)
        requires
            2 * self.tiles <= usize::MAX,
        ensures
            r == 2 * self.tiles,
    {
        self.tiles * 2
    }
}

/// Batch order: all base batches, then all alpha batches, each by slot.
pub open spec fn batch_key(pass: TerrainPass, slot: u8) -> nat {
    match pass {
        TerrainPass::Base => slot as nat,
        TerrainPass::Alpha => (256 + slot) as nat,
    }
}

/// The pass of the batch at position `key` of that order.
pub open spec fn key_pass(key: nat) -> TerrainPass {
    if key < 256 {
        TerrainPass::Base
    } else {
        TerrainPass::Alpha
    }
}

/// The slot of the batch at position `key` of that order.
pub open spec fn key_slot(key: nat) -> u8 {
    if key < 256 {
        key as u8
    } else {
        (key - 256) as u8
    }
}

/// How many of `tiles` belong to the batch at position `key`.
pub open spec fn count_key(tiles: Seq<TerrainTile>, key: nat) -> nat
    decreases tiles.len(),
{
    if tiles.len() == 0 {
        0
    } else {
        count_key(tiles.drop_last(), key) + if batch_key(tiles.last().pass, tiles.last().texture_slot)
            == key {
            1nat
        } else {
            0nat
        }
    }
}

/// The batches at positions below `key` that hold tiles and whose texture
/// resolves, in order.
pub open spec fn spec_batches_below(tiles: Seq<TerrainTile>, resolved_slots: Set<u8>, key: nat) -> Seq<
    TerrainBatchPlan,
>
    decreases key,
{
    if key == 0 {
        Seq::empty()
    } else {
        let k = (key - 1) as nat;
        let prev = spec_batches_below(tiles, resolved_slots, k);
        let n = count_key(tiles, k);
        if n > 0 && resolved_slots.contains(key_slot(k)) {
            prev.push(TerrainBatchPlan { texture_slot: key_slot(k), pass: key_pass(k), tiles: n as usize })
        } else {
            prev
        }
    }
}

/// The terrain batches: one per pass and slot that has tiles and whose
/// texture resolves, base pass first, slots ascending.
pub open spec fn spec_terrain_batches(tiles: Seq<TerrainTile>, resolved_slots: Set<u8>) -> Seq<
    TerrainBatchPlan,
> {
    spec_batches_below(tiles, resolved_slots, 512)
}

proof fn lemma_count_key_bound(tiles: Seq<TerrainTile>, key: nat)
    ensures
        count_key(tiles, key) <= tiles.len(),
    decreases tiles.len(),
{
    if tiles.len() > 0 {
        lemma_count_key_bound(tiles.drop_last(), key);
    }
}

fn tile_key(tile: &TerrainTile) -> (r: usize)
    ensures
        r == batch_key(tile.pass, tile.texture_slot),
        r < 512,
{
    match tile.pass {
        TerrainPass::Base => tile.texture_slot as usize,
        TerrainPass::Alpha => 256 + tile.texture_slot as usize,
    }
}

/// Groups tiles into render batches; see [`spec_terrain_batches`].
pub fn plan_terrain_batches(tiles: &Vec<TerrainTile>, resolved_slots: &HashSet<u8>) -> (r: Vec<
    TerrainBatchPlan,
>)
    ensures
        r@ == spec_terrain_batches(tiles@, resolved_slots@),
{
    let mut counts: Vec<usize> = Vec::new();
    let mut k: usize = 0;
    while k < 512
        invariant
            k <= 512,
            counts@.len() == k,
            forall|j: int| 0 <= j < k ==> counts@[j] == 0,
        decreases 512 - k,
    {
        counts.push(0);
        k = k + 1;
    }
    let n = tiles.len();
    let mut i: usize = 0;
    while i < n
        invariant
            i <= n,
            n == tiles@.len(),
            counts@.len() == 512,
            forall|j: int|
                0 <= j < 512 ==> #[trigger] counts@[j] == count_key(tiles@.take(i as int), j as nat),
        decreases n - i,
    {
        let key = tile_key(&tiles[i]);
        proof {
            assert(tiles@.take(i + 1).drop_last() =~= tiles@.take(i as int));
            lemma_count_key_bound(tiles@.take(i as int), key as nat);
        }
        let current = counts[key];
        counts.set(key, current + 1);
        i = i + 1;
    }
    proof {
        assert(tiles@.take(n as int) =~= tiles@);
    }
    let mut batches: Vec<TerrainBatchPlan> = Vec::new();
    let mut key: usize = 0;
    while key < 512
        invariant
            key <= 512,
            counts@.len() == 512,
            forall|j: int| 0 <= j < 512 ==> #[trigger] counts@[j] == count_key(tiles@, j as nat),
            batches@ == spec_batches_below(tiles@, resolved_slots@, key as nat),
        decreases 512 - key,
    {
        let slot: u8 = if key < 256 {
            key as u8
        } else {
            (key - 256) as u8
        };
        let pass = if key < 256 {
            TerrainPass::Base
        } else {
            TerrainPass::Alpha
        };
        if counts[key] > 0 && resolved_slots.contains(&slot) {
            batches.push(TerrainBatchPlan { texture_slot: slot, pass, tiles: counts[key] });
        }
        key = key + 1;
    }
    batches
}

proof fn lemma_batches_below_ordered(tiles: Seq<TerrainTile>, resolved_slots: Set<u8>, key: nat)
    requires
        key <= 512,
    ensures
        forall|i: int|
            0 <= i < spec_batches_below(tiles, resolved_slots, key).len() ==> batch_key(
                (#[trigger] spec_batches_below(tiles, resolved_slots, key)[i]).pass,
                spec_batches_below(tiles, resolved_slots, key)[i].texture_slot,
            ) < key,
        forall|i: int, j: int|
            0 <= i < j < spec_batches_below(tiles, resolved_slots, key).len() ==> batch_key(
                (#[trigger] spec_batches_below(tiles, resolved_slots, key)[i]).pass,
                spec_batches_below(tiles, resolved_slots, key)[i].texture_slot,
            ) < batch_key(
                (#[trigger] spec_batches_below(tiles, resolved_slots, key)[j]).pass,
                spec_batches_below(tiles, resolved_slots, key)[j].texture_slot,
            ),
    decreases key,
{
    if key > 0 {
        let k = (key - 1) as nat;
        lemma_batches_below_ordered(tiles, resolved_slots, k);
        assert(batch_key(key_pass(k), key_slot(k)) == k);
    }
}

/// Terrain batches come in strictly increasing (pass, slot) order, so no
/// pass and slot has two batches, and each batch holds exactly the tiles of
/// its pass and slot.
pub proof fn lemma_terrain_batches_sorted(tiles: Seq<TerrainTile>, resolved_slots: Set<u8>)
    ensures
        forall|i: int, j: int|
            0 <= i < j < spec_terrain_batches(tiles, resolved_slots).len() ==> batch_key(
                (#[trigger] spec_terrain_batches(tiles, resolved_slots)[i]).pass,
                spec_terrain_batches(tiles, resolved_slots)[i].texture_slot,
            ) < batch_key(
                (#[trigger] spec_terrain_batches(tiles, resolved_slots)[j]).pass,
                spec_terrain_batches(tiles, resolved_slots)[j].texture_slot,
            ),
{
    lemma_batches_below_ordered(tiles, resolved_slots, 512);
}


/// How many of `tiles` are drawn in `pass` with texture `slot`.
pub open spec fn pass_slot_count(tiles: Seq<TerrainTile>, pass: TerrainPass, slot: u8) -> nat
    decreases tiles.len(),
{
    if tiles.len() == 0 {
        0
    } else {
        pass_slot_count(tiles.drop_last(), pass, slot) + if tiles.last().pass == pass
            && tiles.last().texture_slot == slot {
            1nat
        } else {
            0nat
        }
    }
}

proof fn lemma_count_key_is_pass_slot_count(tiles: Seq<TerrainTile>, pass: TerrainPass, slot: u8)
    ensures
        count_key(tiles, batch_key(pass, slot)) == pass_slot_count(tiles, pass, slot),
    decreases tiles.len(),
{
    if tiles.len() > 0 {
        lemma_count_key_is_pass_slot_count(tiles.drop_last(), pass, slot);
    }
}

proof fn lemma_batches_below_complete(tiles: Seq<TerrainTile>, resolved_slots: Set<u8>, key: nat)
    requires
        key <= 512,
        tiles.len() <= usize::MAX,
    ensures
        forall|i: int|
            0 <= i < spec_batches_below(tiles, resolved_slots, key).len() ==> {
                let b = #[trigger] spec_batches_below(tiles, resolved_slots, key)[i];
                &&& b.tiles > 0
                &&& resolved_slots.contains(b.texture_slot)
                &&& b.tiles == count_key(tiles, batch_key(b.pass, b.texture_slot))
            },
        forall|k: nat|
            k < key && #[trigger] count_key(tiles, k) > 0 && resolved_slots.contains(key_slot(k))
                ==> exists|i: int|
                0 <= i < spec_batches_below(tiles, resolved_slots, key).len() && batch_key(
                    spec_batches_below(tiles, resolved_slots, key)[i].pass,
                    spec_batches_below(tiles, resolved_slots, key)[i].texture_slot,
                ) == k,
    decreases key,
{
    if key > 0 {
        let k = (key - 1) as nat;
        lemma_batches_below_complete(tiles, resolved_slots, k);
        lemma_count_key_bound(tiles, k);
        assert(batch_key(key_pass(k), key_slot(k)) == k);
        let prev = spec_batches_below(tiles, resolved_slots, k);
        let all = spec_batches_below(tiles, resolved_slots, key);
        if count_key(tiles, k) > 0 && resolved_slots.contains(key_slot(k)) {
            assert(all == prev.push(
                TerrainBatchPlan {
                    texture_slot: key_slot(k),
                    pass: key_pass(k),
                    tiles: count_key(tiles, k) as usize,
                },
            ));
            assert forall|j: nat|
                j < key && #[trigger] count_key(tiles, j) > 0 && resolved_slots.contains(key_slot(j))
                    implies exists|i: int|
                0 <= i < all.len() && batch_key(all[i].pass, all[i].texture_slot) == j by {
                if j == k {
                    assert(batch_key(all[prev.len() as int].pass, all[prev.len() as int].texture_slot)
                        == j);
                } else {
                    let i = choose|i: int|
                        0 <= i < prev.len() && batch_key(prev[i].pass, prev[i].texture_slot) == j;
                    assert(all[i] == prev[i]);
                }
            }
        }
    }
}

/// The batches account for every drawn tile: each batch holds a texture
/// that resolves and exactly the tiles drawn in its pass with its texture,
/// and every pass and texture that has tiles and resolves has a batch.
pub proof fn lemma_terrain_batches_complete(tiles: Seq<TerrainTile>, resolved_slots: Set<u8>)
    requires
        tiles.len() <= usize::MAX,
    ensures
        forall|i: int|
            0 <= i < spec_terrain_batches(tiles, resolved_slots).len() ==> {
                let b = #[trigger] spec_terrain_batches(tiles, resolved_slots)[i];
                &&& b.tiles > 0
                &&& resolved_slots.contains(b.texture_slot)
                &&& b.tiles == pass_slot_count(tiles, b.pass, b.texture_slot)
            },
        forall|pass: TerrainPass, slot: u8|
            #[trigger] pass_slot_count(tiles, pass, slot) > 0 && resolved_slots.contains(slot)
                ==> exists|i: int|
                0 <= i < spec_terrain_batches(tiles, resolved_slots).len()
                    && spec_terrain_batches(tiles, resolved_slots)[i].pass == pass
                    && spec_terrain_batches(tiles, resolved_slots)[i].texture_slot == slot,
{
    lemma_batches_below_complete(tiles, resolved_slots, 512);
    let batches = spec_terrain_batches(tiles, resolved_slots);
    assert forall|i: int| 0 <= i < batches.len() implies {
        let b = #[trigger] batches[i];
        &&& b.tiles > 0
        &&& resolved_slots.contains(b.texture_slot)
        &&& b.tiles == pass_slot_count(tiles, b.pass, b.texture_slot)
    } by {
        lemma_count_key_is_pass_slot_count(tiles, batches[i].pass, batches[i].texture_slot);
    }
    assert forall|pass: TerrainPass, slot: u8|
        #[trigger] pass_slot_count(tiles, pass, slot) > 0 && resolved_slots.contains(slot) implies exists|
        i: int,
    |
        0 <= i < batches.len() && batches[i].pass == pass && batches[i].texture_slot == slot by {
        lemma_count_key_is_pass_slot_count(tiles, pass, slot);
        let k = batch_key(pass, slot);
        assert(key_slot(k) == slot);
        assert(count_key(tiles, k) > 0);
        let i = choose|i: int|
            0 <= i < batches.len() && batch_key(batches[i].pass, batches[i].texture_slot) == k;
        assert(batches[i].pass == pass && batches[i].texture_slot == slot);
    }
}

/// Whether a texture path names a grass texture: it contains `grass`,
/// ignoring case. Lowering only ASCII letters finds the same occurrences as
/// full Unicode lowering here: no other character lowers to `g`, `r`, `a`
/// or `s`.
pub open spec fn is_grass_path(path: Seq<char>) -> bool {
    contains_seq(ascii_lower_seq(path), "grass"@)
}

/// The slot number that a texture-slot key stands for (its low byte).
pub open spec fn slot_of_key(key: u16) -> u8 {
    (key % 256) as u8
}

/// Slots whose declared texture path is a grass texture.
pub open spec fn declared_grass_slots(slots: Map<u16, String>) -> Set<u8> {
    Set::new(
        |slot: u8|
            exists|key: u16|
                #[trigger] slots.contains_key(key) && slot_of_key(key) == slot && is_grass_path(
                    slots[key]@,
                ),
    )
}

fn is_grass_texture_path(path: &str) -> (r: bool)
    ensures
        r == is_grass_path(path@),
{
    let needle: [char; 5] = ['g', 'r', 'a', 's', 's'];
    proof {
        reveal_strlit("grass");
        assert(needle@ =~= "grass"@);
    }
    let lowered = ascii_lower_chars(&str_chars(path));
    contains_chars(&lowered, &needle)
}

fn declared_grass_slots_of(slots: &HashMap<u16, String>) -> (r: HashSet<u8>)
    ensures
        r@ == declared_grass_slots(slots@),
{
    let mut found: HashSet<u8> = HashSet::new();
    let ghost items = spec_hash_map_iter(slots).remaining();
    for pair in it: slots.iter()
        invariant
            it.seq() == items,
            items == spec_hash_map_iter(slots).remaining(),
            found@ == Set::new(
                |slot: u8|
                    exists|j: int|
                        0 <= j < it.index() && slot_of_key(*(#[trigger] items[j]).0) == slot
                            && is_grass_path(items[j].1@),
            ),
    {
        let (key, path) = pair;
        if is_grass_texture_path(path.as_str()) {
            found.insert((*key % 256) as u8);
        }
    }
    proof {
        assert forall|slot: u8| found@.contains(slot) implies declared_grass_slots(
            slots@,
        ).contains(slot) by {
            let j = choose|j: int|
                0 <= j < items.len() && slot_of_key(*(#[trigger] items[j]).0) == slot
                    && is_grass_path(items[j].1@);
            assert(slots@.contains_key(*items[j].0) && slots@[*items[j].0] == *items[j].1);
        }
        assert forall|slot: u8| declared_grass_slots(slots@).contains(slot) implies found@.contains(
            slot,
        ) by {
            let key = choose|key: u16|
                #[trigger] slots@.contains_key(key) && slot_of_key(key) == slot && is_grass_path(
                    slots@[key]@,
                );
            assert(items.contains((&key, &slots@[key])));
            let j = choose|j: int| 0 <= j < items.len() && items[j] == (&key, &slots@[key]);
            assert(slot_of_key(*items[j].0) == slot);
        }
        assert(found@ =~= declared_grass_slots(slots@));
    }
    found
}


/// The slots tried, in order, when no declared texture path is a grass
/// texture: the two grass tiles and the three extended grass tiles.
pub open spec fn spec_grass_fallback_slots() -> Seq<u8> {
    seq![0u8, 1u8, 30u8, 31u8, 32u8]
}

/// The grass slots tried when a map names none; see [`spec_grass_fallback_slots`].
pub fn grass_fallback_slots() -> (r: [u8; 5])
    ensures
        r@ == spec_grass_fallback_slots(),
{
    let r: [u8; 5] = [0, 1, 30, 31, 32];
    assert(r@ =~= spec_grass_fallback_slots());
    r
}

/// The texture-slot map of optional slot data, empty where there is none.
pub open spec fn slots_view(texture_slots: Option<&TerrainTextureSlotsData>) -> Map<u16, String> {
    match texture_slots {
        Some(data) => data.slots@,
        None => Map::empty(),
    }
}

/// The grass slots of a world: those whose declared texture is a grass
/// texture; where there is none, the fallback slots whose default grass
/// texture exists (`fallback_present[i]` for the `i`-th fallback slot).
pub open spec fn spec_find_grass_slots(declared: Map<u16, String>, fallback_present: Seq<bool>) -> Set<
    u8,
> {
    let grass = declared_grass_slots(declared);
    if !grass.is_empty() {
        grass
    } else {
        Set::new(
            |slot: u8|
                exists|i: int|
                    0 <= i < 5 && #[trigger] fallback_present[i] && spec_grass_fallback_slots()[i]
                        == slot,
        )
    }
}

/// Finds the grass slots of a world; see [`spec_find_grass_slots`].
pub fn find_grass_slots(
    texture_slots: Option<&TerrainTextureSlotsData>,
    fallback_present: [bool; 5],
) -> (r: HashSet<u8>)
    ensures
        r@ == spec_find_grass_slots(slots_view(texture_slots), fallback_present@),
{
    let mut grass: HashSet<u8> = match texture_slots {
        Some(data) => declared_grass_slots_of(&data.slots),
        None => {
            let empty: HashSet<u8> = HashSet::new();
            assert(declared_grass_slots(Map::<u16, String>::empty()) =~= Set::empty());
            empty
        },
    };
    if grass.is_empty() {
        let candidates = grass_fallback_slots();
        let ghost declared = grass@;
        let mut i: usize = 0;
        while i < 5
            invariant
                i <= 5,
                candidates@ == spec_grass_fallback_slots(),
                declared.is_empty(),
                grass@ == Set::new(
                    |slot: u8|
                        exists|j: int|
                            0 <= j < i && #[trigger] fallback_present@[j]
                                && spec_grass_fallback_slots()[j] == slot,
                ),
            decreases 5 - i,
        {
            if fallback_present[i] {
                grass.insert(candidates[i]);
            }
            proof {
                assert(grass@ =~= Set::new(
                    |slot: u8|
                        exists|j: int|
                            0 <= j < i + 1 && #[trigger] fallback_present@[j]
                                && spec_grass_fallback_slots()[j] == slot,
                ));
            }
            i = i + 1;
        }
    }
    grass
}


/// A terrain cell that gets a grass billboard: its top-left vertex, which
/// quarter of the grass texture it shows, and the chunk it is drawn with.
#[derive(Clone, Copy, Debug, PartialEq, Eq, Structural)]
pub struct GrassCell {
    pub x: usize,
    pub z: usize,
    pub variant: u8,
    pub chunk_x: usize,
    pub chunk_z: usize,
}

/// The grass billboard of the cell at `(x, z)`: there is one where the
/// cell's first layer is a grass slot and none of its four corners blends
/// in another texture.
pub open spec fn spec_grass_cell(map: TerrainMapData, x: nat, z: nat, grass_slots: Set<u8>) -> Seq<
    GrassCell,
> {
    let (s1, s2, s3, s4) = cell_corners(map, x as int, z as int);
    if grass_slots.contains(s1.layer1) && s1.alpha == 0 && s2.alpha == 0 && s3.alpha == 0
        && s4.alpha == 0 {
        seq![
            GrassCell {
                x: x as usize,
                z: z as usize,
                variant: ((7 * x + 13 * z) % 4) as u8,
                chunk_x: (x / 8) as usize,
                chunk_z: (z / 8) as usize,
            },
        ]
    } else {
        Seq::empty()
    }
}

/// Grass cells among the first `cols` cells of row `z`.
pub open spec fn spec_grass_row(map: TerrainMapData, z: nat, cols: nat, grass_slots: Set<u8>) -> Seq<
    GrassCell,
>
    decreases cols,
{
    if cols == 0 {
        Seq::empty()
    } else {
        spec_grass_row(map, z, (cols - 1) as nat, grass_slots) + spec_grass_cell(
            map,
            (cols - 1) as nat,
            z,
            grass_slots,
        )
    }
}

/// Grass cells among the first `rows` rows of `cols` cells.
pub open spec fn spec_grass_rows(map: TerrainMapData, rows: nat, cols: nat, grass_slots: Set<u8>) -> Seq<
    GrassCell,
>
    decreases rows,
{
    if rows == 0 {
        Seq::empty()
    } else {
        spec_grass_rows(map, (rows - 1) as nat, cols, grass_slots) + spec_grass_row(
            map,
            (rows - 1) as nat,
            cols,
            grass_slots,
        )
    }
}

/// `n - 1`, or 0 for 0.
pub open spec fn saturating_pred(n: nat) -> nat {
    if n == 0 {
        0
    } else {
        (n - 1) as nat
    }
}

/// All grass cells, row by row, over the part of the map that the height
/// map covers.
pub open spec fn spec_grass_cells(
    map: TerrainMapData,
    heightmap_width: nat,
    heightmap_height: nat,
    grass_slots: Set<u8>,
) -> Seq<GrassCell> {
    let map_width = used_extent(map.spec_width(), heightmap_width);
    let map_height = used_extent(map.spec_height(), heightmap_height);
    spec_grass_rows(map, saturating_pred(map_height), saturating_pred(map_width), grass_slots)
}

proof fn lemma_variant_mod(x: nat, z: nat)
    ensures
        (7 * x + 13 * z) % 4 == (7 * (x % 4) + 13 * (z % 4)) % 4,
{
    let qx = x / 4;
    let qz = z / 4;
    assert(x == 4 * qx + x % 4) by (nonlinear_arith)
        requires
            qx == x / 4,
    ;
    assert(z == 4 * qz + z % 4) by (nonlinear_arith)
        requires
            qz == z / 4,
    ;
    assert(7 * x + 13 * z == 4 * (7 * qx + 13 * qz) + (7 * (x % 4) + 13 * (z % 4))) by (
    nonlinear_arith)
        requires
            x == 4 * qx + x % 4,
            z == 4 * qz + z % 4,
    ;
    assert((4 * (7 * qx + 13 * qz) + (7 * (x % 4) + 13 * (z % 4))) % 4 == (7 * (x % 4) + 13 * (z
        % 4)) % 4) by (nonlinear_arith);
}

fn grass_cell(
    map: &TerrainMapData,
    x: usize,
    z: usize,
    grass_slots: &HashSet<u8>,
    out: &mut Vec<GrassCell>,
)
    requires
        x < usize::MAX,
        z < usize::MAX,
    ensures
        final(out)@ == old(out)@ + spec_grass_cell(*map, x as nat, z as nat, grass_slots@),
{
    let s1 = sample_or_default(map, x, z, TerrainMapSample { layer1: 0, layer2: 255, alpha: 0 });
    let s2 = sample_or_default(map, x + 1, z, s1);
    let s3 = sample_or_default(map, x + 1, z + 1, s1);
    let s4 = sample_or_default(map, x, z + 1, s1);
    let ghost before = out@;
    if grass_slots.contains(&s1.layer1) && s1.alpha == 0 && s2.alpha == 0 && s3.alpha == 0
        && s4.alpha == 0 {
        proof {
            lemma_variant_mod(x as nat, z as nat);
        }
        let variant = ((x % 4) * 7 + (z % 4) * 13) % 4;
        out.push(
            GrassCell { x, z, variant: variant as u8, chunk_x: x / 8, chunk_z: z / 8 },
        );
    }
    proof {
        assert(out@ =~= before + spec_grass_cell(*map, x as nat, z as nat, grass_slots@));
    }
}

/// Picks the cells that get grass billboards; see [`spec_grass_cells`].
pub fn plan_grass_cells(
    map: &TerrainMapData,
    heightmap_width: usize,
    heightmap_height: usize,
    grass_slots: &HashSet<u8>,
) -> (r: Vec<GrassCell>)
    ensures
        r@ == spec_grass_cells(*map, heightmap_width as nat, heightmap_height as nat, grass_slots@),
{
    let mut cells: Vec<GrassCell> = Vec::new();
    let map_width = if map.width() < heightmap_width {
        map.width()
    } else {
        heightmap_width
    };
    let map_height = if map.height() < heightmap_height {
        map.height()
    } else {
        heightmap_height
    };
    let cols = map_width.saturating_sub(1);
    let rows = map_height.saturating_sub(1);
    let mut z: usize = 0;
    while z < rows
        invariant
            z <= rows,
            rows < usize::MAX,
            cols < usize::MAX,
            cells@ == spec_grass_rows(*map, z as nat, cols as nat, grass_slots@),
        decreases rows - z,
    {
        let mut x: usize = 0;
        while x < cols
            invariant
                x <= cols,
                z < rows,
                rows < usize::MAX,
                cols < usize::MAX,
                cells@ == spec_grass_rows(*map, z as nat, cols as nat, grass_slots@) + spec_grass_row(
                    *map,
                    z as nat,
                    x as nat,
                    grass_slots@,
                ),
            decreases cols - x,
        {
            grass_cell(map, x, z, grass_slots, &mut cells);
            proof {
                assert(cells@ =~= spec_grass_rows(*map, z as nat, cols as nat, grass_slots@)
                    + spec_grass_row(*map, z as nat, (x + 1) as nat, grass_slots@));
            }
            x = x + 1;
        }
        z = z + 1;
    }
    cells
}


/// Vertex indices of the two triangles of a tile, in the winding order of
/// the terrain faces: top-left, bottom-left, top-right, then top-right,
/// bottom-left, bottom-right.
pub open spec fn spec_tile_triangle_vertices(x: nat, z: nat, width: nat) -> Seq<usize> {
    let i1 = z * width + x;
    let i4 = (z + 1) * width + x;
    seq![i1 as usize, i4 as usize, (i1 + 1) as usize, (i1 + 1) as usize, i4 as usize, (i4 + 1) as usize]
}

/// The six vertex indices of the two triangles of tile `(x, z)`.
pub fn tile_triangle_vertices(x: usize, z: usize, width: usize) -> (r: [usize; 6])
    requires
        (z + 1) * width + x + 1 <= usize::MAX,
    ensures
        r@ == spec_tile_triangle_vertices(x as nat, z as nat, width as nat),
{
    assert((z + 1) * width == z * width + width) by (nonlinear_arith);
    assert(z * width <= (z + 1) * width) by (nonlinear_arith);
    let i1 = z * width + x;
    let i4 = i1 + width;
    let r: [usize; 6] = [i1, i4, i1 + 1, i1 + 1, i4, i4 + 1];
    assert(r@ =~= spec_tile_triangle_vertices(x as nat, z as nat, width as nat));
    r
}

proof fn lemma_row_tiles_no_billboard_overlay(
    map: TerrainMapData,
    z: nat,
    cols: nat,
    grass_slots: Option<Set<u8>>,
    wide_slots: Set<u8>,
    fallback: Option<u8>,
)
    ensures
        forall|i: int|
            0 <= i < spec_row_tiles(map, z, cols, grass_slots, wide_slots, fallback).len() && (
            #[trigger] spec_row_tiles(map, z, cols, grass_slots, wide_slots, fallback)[i]).pass
                == TerrainPass::Alpha ==> !is_billboard_like_grass(
                grass_slots,
                wide_slots,
                spec_row_tiles(map, z, cols, grass_slots, wide_slots, fallback)[i].texture_slot,
            ),
    decreases cols,
{
    if cols > 0 {
        let c = (cols - 1) as nat;
        lemma_row_tiles_no_billboard_overlay(map, z, c, grass_slots, wide_slots, fallback);
        let prev = spec_row_tiles(map, z, c, grass_slots, wide_slots, fallback);
        let cell = spec_cell_tiles(map, c, z, grass_slots, wide_slots, fallback);
        let all = spec_row_tiles(map, z, cols, grass_slots, wide_slots, fallback);
        assert forall|i: int|
            0 <= i < all.len() && (#[trigger] all[i]).pass == TerrainPass::Alpha implies !is_billboard_like_grass(
            grass_slots,
            wide_slots,
            all[i].texture_slot,
        ) by {
            if i >= prev.len() {
                assert(all[i] == cell[i - prev.len()]);
            } else {
                assert(all[i] == prev[i]);
            }
        }
    }
}

proof fn lemma_rows_tiles_no_billboard_overlay(
    map: TerrainMapData,
    rows: nat,
    cols: nat,
    grass_slots: Option<Set<u8>>,
    wide_slots: Set<u8>,
    fallback: Option<u8>,
)
    ensures
        forall|i: int|
            0 <= i < spec_rows_tiles(map, rows, cols, grass_slots, wide_slots, fallback).len() && (
            #[trigger] spec_rows_tiles(map, rows, cols, grass_slots, wide_slots, fallback)[i]).pass
                == TerrainPass::Alpha ==> !is_billboard_like_grass(
                grass_slots,
                wide_slots,
                spec_rows_tiles(map, rows, cols, grass_slots, wide_slots, fallback)[i].texture_slot,
            ),
    decreases rows,
{
    if rows > 0 {
        let r = (rows - 1) as nat;
        lemma_rows_tiles_no_billboard_overlay(map, r, cols, grass_slots, wide_slots, fallback);
        lemma_row_tiles_no_billboard_overlay(map, r, cols, grass_slots, wide_slots, fallback);
        let prev = spec_rows_tiles(map, r, cols, grass_slots, wide_slots, fallback);
        let row = spec_row_tiles(map, r, cols, grass_slots, wide_slots, fallback);
        let all = spec_rows_tiles(map, rows, cols, grass_slots, wide_slots, fallback);
        assert forall|i: int|
            0 <= i < all.len() && (#[trigger] all[i]).pass == TerrainPass::Alpha implies !is_billboard_like_grass(
            grass_slots,
            wide_slots,
            all[i].texture_slot,
        ) by {
            if i >= prev.len() {
                assert(all[i] == row[i - prev.len()]);
            } else {
                assert(all[i] == prev[i]);
            }
        }
    }
}

/// Billboard-like grass is left to the grass pass: no alpha tile of the
/// terrain uses a billboard-like grass slot.
pub proof fn lemma_no_billboard_grass_alpha_tiles(
    map: TerrainMapData,
    mesh_width: nat,
    mesh_height: nat,
    grass_slots: Option<Set<u8>>,
    wide_slots: Set<u8>,
    resolved_slots: Set<u8>,
)
    ensures
        forall|i: int|
            0 <= i < spec_terrain_tiles(
                map,
                mesh_width,
                mesh_height,
                grass_slots,
                wide_slots,
                resolved_slots,
            ).len() && (#[trigger] spec_terrain_tiles(
                map,
                mesh_width,
                mesh_height,
                grass_slots,
                wide_slots,
                resolved_slots,
            )[i]).pass == TerrainPass::Alpha ==> !is_billboard_like_grass(
                grass_slots,
                wide_slots,
                spec_terrain_tiles(
                    map,
                    mesh_width,
                    mesh_height,
                    grass_slots,
                    wide_slots,
                    resolved_slots,
                )[i].texture_slot,
            ),
{
    let map_width = used_extent(map.spec_width(), mesh_width);
    let map_height = used_extent(map.spec_height(), mesh_height);
    if !(mesh_width < 2 || mesh_height < 2 || map_width < 2 || map_height < 2) {
        lemma_rows_tiles_no_billboard_overlay(
            map,
            (map_height - 1) as nat,
            (map_width - 1) as nat,
            grass_slots,
            wide_slots,
            spec_fallback_ground_slot(resolved_slots),
        );
    }
}


/// The raw paths tried, in order, for the texture of a slot: the declared
/// path where there is one, then the built-in names of the slot.
pub open spec fn spec_texture_slot_candidates(
    world_name: Seq<char>,
    declared: Option<Seq<char>>,
    slot: u8,
) -> Seq<Seq<char>> {
    let defaults = spec_default_texture_slot_candidates(world_name, slot);
    match declared {
        Some(path) => seq![path] + defaults,
        None => defaults,
    }
}

/// The declared path of a slot in optional slot data.
pub open spec fn declared_slot_path(texture_slots: Option<&TerrainTextureSlotsData>, slot: u8) -> Option<
    Seq<char>,
> {
    match texture_slots {
        Some(data) => data.spec_path_for_slot(slot),
        None => None,
    }
}

/// Lists the raw texture paths tried for a slot; the first that names an
/// existing asset is its texture. See [`spec_texture_slot_candidates`].
pub fn texture_slot_candidates(
    world_name: &str,
    texture_slots: Option<&TerrainTextureSlotsData>,
    texture_slot: u8,
) -> (r: Vec<String>)
    ensures
        r@.map_values(|s: String| s@) == spec_texture_slot_candidates(
            world_name@,
            declared_slot_path(texture_slots, texture_slot),
            texture_slot,
        ),
{
    let defaults = default_texture_slot_candidates(world_name, texture_slot);
    let declared = match texture_slots {
        Some(data) => data.path_for_slot(texture_slot),
        None => None,
    };
    match declared {
        Some(path) => {
            let mut r: Vec<String> = Vec::new();
            r.push(path.to_owned());
            let mut i: usize = 0;
            while i < defaults.len()
                invariant
                    i <= defaults@.len(),
                    r@.len() == i + 1,
                    r@[0]@ == path@,
                    forall|j: int| 0 <= j < i ==> #[trigger] r@[j + 1] == defaults@[j],
                decreases defaults@.len() - i,
            {
                r.push(defaults[i].clone());
                i = i + 1;
            }
            proof {
                let target = seq![path@] + defaults@.map_values(|s: String| s@);
                assert forall|j: int| 0 <= j < r@.len() implies r@.map_values(|s: String| s@)[j]
                    == target[j] by {
                    if j > 0 {
                        assert(r@[(j - 1) + 1] == defaults@[j - 1]);
                    }
                }
                assert(r@.map_values(|s: String| s@) =~= target);
            }
            r
        },
        None => defaults,
    }
}


/// The declared paths of the grass slots below `k`, in ascending slot
/// order, each normalized as an asset path.
pub open spec fn spec_grass_texture_paths_below(
    texture_slots: TerrainTextureSlotsData,
    grass_slots: Set<u8>,
    k: nat,
) -> Seq<Seq<char>>
    decreases k,
{
    if k == 0 {
        Seq::empty()
    } else {
        let slot = (k - 1) as u8;
        let prev = spec_grass_texture_paths_below(texture_slots, grass_slots, (k - 1) as nat);
        match texture_slots.spec_path_for_slot(slot) {
            Some(path) => if grass_slots.contains(slot) {
                prev.push(spec_normalize_asset_path(path))
            } else {
                prev
            },
            None => prev,
        }
    }
}

/// The grass billboard texture paths tried first: the declared paths of
/// the grass slots, lowest slot first, normalized; none without slot data.
/// (The built-in fallbacks come after them.)
pub open spec fn spec_grass_texture_candidates(
    texture_slots: Option<&TerrainTextureSlotsData>,
    grass_slots: Set<u8>,
) -> Seq<Seq<char>> {
    match texture_slots {
        Some(data) => spec_grass_texture_paths_below(*data, grass_slots, 256),
        None => Seq::empty(),
    }
}

/// The grass texture paths to try, in order; see [`spec_grass_texture_candidates`].
pub fn grass_texture_candidates(
    texture_slots: Option<&TerrainTextureSlotsData>,
    grass_slots: &HashSet<u8>,
) -> (r: Vec<String>)
    ensures
        r@.map_values(|s: String| s@) == spec_grass_texture_candidates(texture_slots, grass_slots@),
{
    let mut r: Vec<String> = Vec::new();
    match texture_slots {
        None => {
            assert(r@.map_values(|s: String| s@) =~= Seq::<Seq<char>>::empty());
            r
        },
        Some(data) => {
            let mut k: u32 = 0;
            while k < 256
                invariant
                    k <= 256,
                    r@.map_values(|s: String| s@) == spec_grass_texture_paths_below(
                        *data,
                        grass_slots@,
                        k as nat,
                    ),
                decreases 256 - k,
            {
                let slot = k as u8;
                let ghost before = r@;
                if grass_slots.contains(&slot) {
                    match data.path_for_slot(slot) {
                        Some(path) => {
                            r.push(normalize_asset_path(path));
                            proof {
                                assert(r@.map_values(|s: String| s@) =~= before.map_values(
                                    |s: String| s@,
                                ).push(spec_normalize_asset_path(path@)));
                            }
                        },
                        None => {},
                    }
                }
                k = k + 1;
            }
            r
        },
    }
}


proof fn lemma_row_tiles_in_row(
    map: TerrainMapData,
    z: nat,
    cols: nat,
    grass_slots: Option<Set<u8>>,
    wide_slots: Set<u8>,
    fallback: Option<u8>,
)
    requires
        z <= usize::MAX,
        cols <= usize::MAX,
    ensures
        forall|i: int|
            0 <= i < spec_row_tiles(map, z, cols, grass_slots, wide_slots, fallback).len() ==> (
            #[trigger] spec_row_tiles(map, z, cols, grass_slots, wide_slots, fallback)[i]).x < cols
                && spec_row_tiles(map, z, cols, grass_slots, wide_slots, fallback)[i].z == z,
    decreases cols,
{
    if cols > 0 {
        let c = (cols - 1) as nat;
        lemma_row_tiles_in_row(map, z, c, grass_slots, wide_slots, fallback);
        let prev = spec_row_tiles(map, z, c, grass_slots, wide_slots, fallback);
        let cell = spec_cell_tiles(map, c, z, grass_slots, wide_slots, fallback);
        let all = spec_row_tiles(map, z, cols, grass_slots, wide_slots, fallback);
        assert forall|i: int| 0 <= i < all.len() implies (#[trigger] all[i]).x < cols && all[i].z
            == z by {
            if i >= prev.len() {
                assert(all[i] == cell[i - prev.len()]);
            } else {
                assert(all[i] == prev[i]);
            }
        }
    }
}

proof fn lemma_rows_tiles_in_grid(
    map: TerrainMapData,
    rows: nat,
    cols: nat,
    grass_slots: Option<Set<u8>>,
    wide_slots: Set<u8>,
    fallback: Option<u8>,
)
    requires
        rows <= usize::MAX,
        cols <= usize::MAX,
    ensures
        forall|i: int|
            0 <= i < spec_rows_tiles(map, rows, cols, grass_slots, wide_slots, fallback).len() ==> (
            #[trigger] spec_rows_tiles(map, rows, cols, grass_slots, wide_slots, fallback)[i]).x
                < cols && spec_rows_tiles(map, rows, cols, grass_slots, wide_slots, fallback)[i].z
                < rows,
    decreases rows,
{
    if rows > 0 {
        let r = (rows - 1) as nat;
        lemma_rows_tiles_in_grid(map, r, cols, grass_slots, wide_slots, fallback);
        lemma_row_tiles_in_row(map, r, cols, grass_slots, wide_slots, fallback);
        let prev = spec_rows_tiles(map, r, cols, grass_slots, wide_slots, fallback);
        let row = spec_row_tiles(map, r, cols, grass_slots, wide_slots, fallback);
        let all = spec_rows_tiles(map, rows, cols, grass_slots, wide_slots, fallback);
        assert forall|i: int| 0 <= i < all.len() implies (#[trigger] all[i]).x < cols && all[i].z
            < rows by {
            if i >= prev.len() {
                assert(all[i] == row[i - prev.len()]);
            } else {
                assert(all[i] == prev[i]);
            }
        }
    }
}

proof fn lemma_cell_tiles_place(
    map: TerrainMapData,
    x: nat,
    z: nat,
    grass_slots: Option<Set<u8>>,
    wide_slots: Set<u8>,
    fallback: Option<u8>,
)
    ensures
        forall|j: int|
            0 <= j < spec_cell_tiles(map, x, z, grass_slots, wide_slots, fallback).len() ==> (
            #[trigger] spec_cell_tiles(map, x, z, grass_slots, wide_slots, fallback)[j]).x
                == x as usize && spec_cell_tiles(map, x, z, grass_slots, wide_slots, fallback)[j].z
                == z as usize,
{
}

proof fn lemma_row_tiles_cover(
    map: TerrainMapData,
    z: nat,
    cols: nat,
    grass_slots: Option<Set<u8>>,
    wide_slots: Set<u8>,
    fallback: Option<u8>,
)
    requires
        z <= usize::MAX,
        cols <= usize::MAX,
    ensures
        forall|i: int|
            0 <= i < spec_row_tiles(map, z, cols, grass_slots, wide_slots, fallback).len()
                ==> spec_cell_tiles(
                map,
                (#[trigger] spec_row_tiles(map, z, cols, grass_slots, wide_slots, fallback)[i]).x as nat,
                z,
                grass_slots,
                wide_slots,
                fallback,
            ).contains(spec_row_tiles(map, z, cols, grass_slots, wide_slots, fallback)[i]),
        forall|x: nat, j: int|
            x < cols && 0 <= j < spec_cell_tiles(map, x, z, grass_slots, wide_slots, fallback).len()
                ==> spec_row_tiles(map, z, cols, grass_slots, wide_slots, fallback).contains(
                #[trigger] spec_cell_tiles(map, x, z, grass_slots, wide_slots, fallback)[j],
            ),
    decreases cols,
{
    if cols > 0 {
        let c = (cols - 1) as nat;
        lemma_row_tiles_cover(map, z, c, grass_slots, wide_slots, fallback);
        lemma_cell_tiles_place(map, c, z, grass_slots, wide_slots, fallback);
        let prev = spec_row_tiles(map, z, c, grass_slots, wide_slots, fallback);
        let cell = spec_cell_tiles(map, c, z, grass_slots, wide_slots, fallback);
        let all = spec_row_tiles(map, z, cols, grass_slots, wide_slots, fallback);
        assert forall|i: int| 0 <= i < all.len() implies spec_cell_tiles(
            map,
            (#[trigger] all[i]).x as nat,
            z,
            grass_slots,
            wide_slots,
            fallback,
        ).contains(all[i]) by {
            if i >= prev.len() {
                assert(all[i] == cell[i - prev.len()]);
                assert(cell[i - prev.len()].x as nat == c);
            } else {
                assert(all[i] == prev[i]);
            }
        }
        assert forall|x: nat, j: int|
            x < cols && 0 <= j < spec_cell_tiles(
                map,
                x,
                z,
                grass_slots,
                wide_slots,
                fallback,
            ).len() implies all.contains(
            #[trigger] spec_cell_tiles(map, x, z, grass_slots, wide_slots, fallback)[j],
        ) by {
            let t = spec_cell_tiles(map, x, z, grass_slots, wide_slots, fallback)[j];
            if x == c {
                assert(all[prev.len() + j] == t);
            } else {
                assert(prev.contains(t));
                let k = choose|k: int| 0 <= k < prev.len() && prev[k] == t;
                assert(all[k] == t);
            }
        }
    }
}

proof fn lemma_rows_tiles_cover(
    map: TerrainMapData,
    rows: nat,
    cols: nat,
    grass_slots: Option<Set<u8>>,
    wide_slots: Set<u8>,
    fallback: Option<u8>,
)
    requires
        rows <= usize::MAX,
        cols <= usize::MAX,
    ensures
        forall|i: int|
            0 <= i < spec_rows_tiles(map, rows, cols, grass_slots, wide_slots, fallback).len()
                ==> spec_cell_tiles(
                map,
                (#[trigger] spec_rows_tiles(map, rows, cols, grass_slots, wide_slots, fallback)[i]).x as nat,
                spec_rows_tiles(map, rows, cols, grass_slots, wide_slots, fallback)[i].z as nat,
                grass_slots,
                wide_slots,
                fallback,
            ).contains(spec_rows_tiles(map, rows, cols, grass_slots, wide_slots, fallback)[i]),
        forall|x: nat, z: nat, j: int|
            x < cols && z < rows && 0 <= j < spec_cell_tiles(
                map,
                x,
                z,
                grass_slots,
                wide_slots,
                fallback,
            ).len() ==> spec_rows_tiles(map, rows, cols, grass_slots, wide_slots, fallback).contains(
                #[trigger] spec_cell_tiles(map, x, z, grass_slots, wide_slots, fallback)[j],
            ),
    decreases rows,
{
    if rows > 0 {
        let r = (rows - 1) as nat;
        lemma_rows_tiles_cover(map, r, cols, grass_slots, wide_slots, fallback);
        lemma_row_tiles_cover(map, r, cols, grass_slots, wide_slots, fallback);
        lemma_row_tiles_in_row(map, r, cols, grass_slots, wide_slots, fallback);
        let prev = spec_rows_tiles(map, r, cols, grass_slots, wide_slots, fallback);
        let row = spec_row_tiles(map, r, cols, grass_slots, wide_slots, fallback);
        let all = spec_rows_tiles(map, rows, cols, grass_slots, wide_slots, fallback);
        assert forall|i: int| 0 <= i < all.len() implies spec_cell_tiles(
            map,
            (#[trigger] all[i]).x as nat,
            all[i].z as nat,
            grass_slots,
            wide_slots,
            fallback,
        ).contains(all[i]) by {
            if i >= prev.len() {
                assert(all[i] == row[i - prev.len()]);
                assert(row[i - prev.len()].z == r);
            } else {
                assert(all[i] == prev[i]);
            }
        }
        assert forall|x: nat, z: nat, j: int|
            x < cols && z < rows && 0 <= j < spec_cell_tiles(
                map,
                x,
                z,
                grass_slots,
                wide_slots,
                fallback,
            ).len() implies all.contains(
            #[trigger] spec_cell_tiles(map, x, z, grass_slots, wide_slots, fallback)[j],
        ) by {
            let t = spec_cell_tiles(map, x, z, grass_slots, wide_slots, fallback)[j];
            if z == r {
                assert(row.contains(t));
                let k = choose|k: int| 0 <= k < row.len() && row[k] == t;
                assert(all[prev.len() + k] == t);
            } else {
                assert(prev.contains(t));
                let k = choose|k: int| 0 <= k < prev.len() && prev[k] == t;
                assert(all[k] == t);
            }
        }
    }
}

/// The terrain is laid out cell by cell: every tile of the plan is one of
/// the tiles of the cell at its own position (see
/// [`lemma_cell_tiles_blend`]), that cell lies in the part of the map the
/// mesh covers, and every tile of every such cell is in the plan.
pub proof fn lemma_terrain_tiles_are_cell_tiles(
    map: TerrainMapData,
    mesh_width: nat,
    mesh_height: nat,
    grass_slots: Option<Set<u8>>,
    wide_slots: Set<u8>,
    resolved_slots: Set<u8>,
)
    requires
        mesh_width <= usize::MAX,
        mesh_height <= usize::MAX,
    ensures
        ({
            let tiles = spec_terrain_tiles(
                map,
                mesh_width,
                mesh_height,
                grass_slots,
                wide_slots,
                resolved_slots,
            );
            let width = used_extent(map.spec_width(), mesh_width);
            let height = used_extent(map.spec_height(), mesh_height);
            let fallback = spec_fallback_ground_slot(resolved_slots);
            &&& forall|i: int|
                0 <= i < tiles.len() ==> (#[trigger] tiles[i]).x + 1 < width && tiles[i].z + 1
                    < height && spec_cell_tiles(
                    map,
                    tiles[i].x as nat,
                    tiles[i].z as nat,
                    grass_slots,
                    wide_slots,
                    fallback,
                ).contains(tiles[i])
            &&& forall|x: nat, z: nat, j: int|
                x + 1 < width && z + 1 < height && 0 <= j < spec_cell_tiles(
                    map,
                    x,
                    z,
                    grass_slots,
                    wide_slots,
                    fallback,
                ).len() ==> tiles.contains(
                    #[trigger] spec_cell_tiles(map, x, z, grass_slots, wide_slots, fallback)[j],
                )
        }),
{
    let width = used_extent(map.spec_width(), mesh_width);
    let height = used_extent(map.spec_height(), mesh_height);
    let fallback = spec_fallback_ground_slot(resolved_slots);
    if !(mesh_width < 2 || mesh_height < 2 || width < 2 || height < 2) {
        let rows = (height - 1) as nat;
        let cols = (width - 1) as nat;
        lemma_rows_tiles_cover(map, rows, cols, grass_slots, wide_slots, fallback);
        lemma_rows_tiles_in_grid(map, rows, cols, grass_slots, wide_slots, fallback);
    }
}

/// Every terrain tile is a cell of the mesh: its top-left vertex is at
/// least one column and one row from the far edges, so all four of its
/// vertices exist.
pub proof fn lemma_terrain_tiles_within_mesh(
    map: TerrainMapData,
    mesh_width: nat,
    mesh_height: nat,
    grass_slots: Option<Set<u8>>,
    wide_slots: Set<u8>,
    resolved_slots: Set<u8>,
)
    requires
        mesh_width <= usize::MAX,
        mesh_height <= usize::MAX,
    ensures
        forall|i: int|
            0 <= i < spec_terrain_tiles(
                map,
                mesh_width,
                mesh_height,
                grass_slots,
                wide_slots,
                resolved_slots,
            ).len() ==> (#[trigger] spec_terrain_tiles(
                map,
                mesh_width,
                mesh_height,
                grass_slots,
                wide_slots,
                resolved_slots,
            )[i]).x + 1 < mesh_width && spec_terrain_tiles(
                map,
                mesh_width,
                mesh_height,
                grass_slots,
                wide_slots,
                resolved_slots,
            )[i].z + 1 < mesh_height,
{
    let map_width = used_extent(map.spec_width(), mesh_width);
    let map_height = used_extent(map.spec_height(), mesh_height);
    if !(mesh_width < 2 || mesh_height < 2 || map_width < 2 || map_height < 2) {
        lemma_rows_tiles_in_grid(
            map,
            (map_height - 1) as nat,
            (map_width - 1) as nat,
            grass_slots,
            wide_slots,
            spec_fallback_ground_slot(resolved_slots),
        );
    }
}

} // verus!
