//! The layout of the terrain: how high each column of the grid stands,
//! what each cell is made of, and which cells are left empty.

use vstd::prelude::*;
use crate::material::Surface;

verus! {

/// The taller of two heights.
pub open spec fn taller(a: int, b: int) -> int {
    if a >= b {
        a
    } else {
        b
    }
}

/// The height of the column at `(x, z)` of a grid of `grid_size` columns
/// each way. Walls of height 6 stand along the near edges and, but for a
/// gate, along the far edge in `x`; a lower wall of height 4, with a gap,
/// along the far edge in `z`. The middle is a basin of height 2, the far
/// corner a lawn of height 3, and the beds of the water and of the lava
/// are at least 2 high.
pub open spec fn spec_height(x: int, z: int, grid_size: int) -> int {
    let h0: int = 1;
    let h1: int = if z <= 2 {
        6
    } else {
        h0
    };
    let h2: int = if x <= 2 {
        6
    } else {
        h1
    };
    let h3: int = if x >= grid_size - 3 && !(5 <= z <= 7) {
        6
    } else {
        h2
    };
    let h4: int = if z >= grid_size - 3 && !(3 <= x <= 8) {
        4
    } else {
        h3
    };
    let h5: int = if 4 <= x <= 7 && 4 <= z <= 7 {
        2
    } else {
        h4
    };
    let h6: int = if 9 <= x <= 11 && 9 <= z <= 11 {
        3
    } else {
        h5
    };
    let h7: int = if 5 <= x <= 11 && 5 <= z <= 11 {
        taller(h6, 2)
    } else {
        h6
    };
    if 0 <= x <= 8 && 0 <= z <= 8 {
        taller(h7, 2)
    } else {
        h7
    }
}

/// Whether a column belongs to the stairs of lawn.
pub open spec fn on_lawn(x: int, z: int) -> bool {
    9 <= x <= 11 && 4 <= z <= 11
}

/// What the cell at level `y_level` of the column at `(x, z)` is made of,
/// in a column of height `max_height`: water and lava at level 1 of their
/// beds, water before lava; obsidian at levels 1 and 2 of the middle; on
/// top grass on the lawn and stone elsewhere; dirt right under the top;
/// stone below.
pub open spec fn spec_determine_material(x: int, z: int, y_level: int, max_height: int) -> Surface {
    if y_level == 1 && 5 <= x <= 11 && 5 <= z <= 11 {
        Surface::WaterSurface
    } else if y_level == 1 && 0 <= x <= 8 && 0 <= z <= 8 {
        Surface::LavaSurface
    } else if 1 <= y_level <= 2 && ((3 <= x <= 8 && 4 <= z <= 7) || (6 <= x <= 8 && 8 <= z <= 9) || (
    4 <= x <= 6 && z == 8)) {
        Surface::ObsidianBlock
    } else if y_level == max_height {
        if on_lawn(x, z) {
            Surface::GrassTop
        } else {
            Surface::StoneLayer
        }
    } else if y_level >= max_height - 1 {
        Surface::DirtLayer
    } else {
        Surface::StoneLayer
    }
}

/// Whether the cell at level `y_level` of the column at `(x, z)` holds a
/// cube. Two tunnels at levels 2 and 3 are left empty, and so is level 2
/// over the middle of the water and of the lava; level 1 of the beds of
/// the water and of the lava is always filled, where no tunnel passes.
pub open spec fn spec_should_place_cube(x: int, z: int, y_level: int, grid_size: int) -> bool {
    if y_level == 2 && 5 <= z <= 7 && 3 <= x <= grid_size - 3 {
        false
    } else if 2 <= y_level <= 3 && 3 <= x <= 5 && 3 <= z <= 5 {
        false
    } else if y_level == 1 && 5 <= x <= 11 && 5 <= z <= 11 {
        true
    } else if y_level == 2 && 7 <= x <= 9 && 7 <= z <= 9 {
        false
    } else if y_level == 1 && 0 <= x <= 8 && 0 <= z <= 8 {
        true
    } else if y_level == 2 && 2 <= x <= 6 && 2 <= z <= 6 {
        false
    } else {
        true
    }
}

/// The height of one column.
pub fn column_height(x: usize, z: usize, grid_size: usize) -> (h: usize)
    requires
        grid_size >= 3,
    ensures
        h == spec_height(x as int, z as int, grid_size as int),
        1 <= h <= 6,
{
    let mut height: usize = 1;
    if z <= 2 {
        height = 6;
    }
    if x <= 2 {
        height = 6;
    }
    if x >= grid_size - 3 && !(z >= 5 && z <= 7) {
        height = 6;
    }
    if z >= grid_size - 3 && !(x >= 3 && x <= 8) {
        height = 4;
    }
    if x >= 4 && x <= 7 && z >= 4 && z <= 7 {
        height = 2;
    }
    if x >= 9 && x <= 11 && z >= 9 && z <= 11 {
        height = 3;
    }
    if x >= 5 && x <= 11 && z >= 5 && z <= 11 {
        if height < 2 {
            height = 2;
        }
    }
    if x <= 8 && z <= 8 {
        if height < 2 {
            height = 2;
        }
    }
    height
}

/// The heights of all columns of the grid: row `z` holds the columns of
/// that `z`, by `x`.
pub fn generate_terrain_heights(grid_size: usize) -> (heights: Vec<Vec<usize>>)
    requires
        grid_size >= 3,
    ensures
        heights@.len() == grid_size,
        forall|z: int| 0 <= z < grid_size ==> (#[trigger] heights@[z])@.len() == grid_size,
        forall|z: int, x: int|
            0 <= z < grid_size && 0 <= x < grid_size ==> #[trigger] heights@[z]@[x] == spec_height(
                x,
                z,
                grid_size as int,
            ),
{
    let mut heights: Vec<Vec<usize>> = Vec::new();
    let mut z: usize = 0;
    while z < grid_size
        invariant
            grid_size >= 3,
            z <= grid_size,
            heights@.len() == z,
            forall|r: int| 0 <= r < z ==> (#[trigger] heights@[r])@.len() == grid_size,
            forall|r: int, x: int|
                0 <= r < z && 0 <= x < grid_size ==> #[trigger] heights@[r]@[x] == spec_height(
                    x,
                    r,
                    grid_size as int,
                ),
        decreases grid_size - z,
    {
        let mut row: Vec<usize> = Vec::new();
        let mut x: usize = 0;
        while x < grid_size
            invariant
                grid_size >= 3,
                x <= grid_size,
                row@.len() == x,
                forall|c: int|
                    0 <= c < x ==> #[trigger] row@[c] == spec_height(c, z as int, grid_size as int),
            decreases grid_size - x,
        {
            row.push(column_height(x, z, grid_size));
            x = x + 1;
        }
        heights.push(row);
        z = z + 1;
    }
    heights
}

/// What a cell is made of.
pub fn determine_material(x: usize, z: usize, y_level: usize, max_height: usize) -> (s: Surface)
    requires
        max_height >= 1,
    ensures
        s == spec_determine_material(x as int, z as int, y_level as int, max_height as int),
{
    if y_level == 1 && x >= 5 && x <= 11 && z >= 5 && z <= 11 {
        return Surface::WaterSurface;
    }
    if y_level == 1 && x <= 8 && z <= 8 {
        return Surface::LavaSurface;
    }
    if y_level >= 1 && y_level <= 2 {
        if (x >= 3 && x <= 8 && z >= 4 && z <= 7) || (x >= 6 && x <= 8 && z >= 8 && z <= 9) || (x
            >= 4 && x <= 6 && z >= 8 && z <= 8) {
            return Surface::ObsidianBlock;
        }
    }
    if y_level == max_height {
        if (x >= 9 && x <= 11 && z >= 9 && z <= 11) || (x >= 9 && x <= 11 && z >= 6 && z <= 8) || (x
            >= 9 && x <= 11 && z >= 4 && z <= 5) {
            Surface::GrassTop
        } else {
            Surface::StoneLayer
        }
    } else if y_level >= max_height - 1 {
        Surface::DirtLayer
    } else {
        Surface::StoneLayer
    }
}

/// Whether a cell holds a cube.
pub fn should_place_cube(x: usize, z: usize, y_level: usize, _max_height: usize, grid_size: usize) -> (place:
    bool)
    requires
        grid_size >= 3,
    ensures
        place == spec_should_place_cube(x as int, z as int, y_level as int, grid_size as int),
{
    if y_level >= 2 && y_level <= 2 && z >= 5 && z <= 7 && x >= 3 && x <= grid_size - 3 {
        return false;
    }
    if y_level >= 2 && y_level <= 3 && x >= 3 && x <= 5 && z >= 3 && z <= 5 {
        return false;
    }
    if y_level == 1 && x >= 5 && x <= 11 && z >= 5 && z <= 11 {
        return true;
    }
    if y_level == 2 && x >= 7 && x <= 9 && z >= 7 && z <= 9 {
        return false;
    }
    if y_level == 1 && x <= 8 && z <= 8 {
        return true;
    }
    if y_level == 2 && x >= 2 && x <= 6 && z >= 2 && z <= 6 {
        return false;
    }
    true
}

} // verus!
