use vstd::prelude::*;

verus! {

/// One cell of a square pixel grid: its column, its row and its colour.
#[derive(Clone, Copy, Debug)]
pub struct GridPixel {
    pub x: u16,
    pub y: u16,
    pub rgb: [u8; 3],
}

impl GridPixel {
    /// Builds a cell; the coordinates are kept in 16 bits, which holds every
    /// grid of side at most 65535.
    pub fn new(x: u32, y: u32, rgb: [u8; 3]) -> (r: Self)
        ensures
            r.x == x as u16,
            r.y == y as u16,
            r.rgb == rgb,
            x <= u16::MAX ==> r.x as u32 == x,
            y <= u16::MAX ==> r.y as u32 == y,
    {
        GridPixel { x: x as u16, y: y as u16, rgb }
    }

    pub fn coords(&self) -> (r: (u16, u16))
        ensures
            r == (self.x, self.y),
    {
        (self.x, self.y)
    }

    pub fn rgb_tuple(&self) -> (r: (u8, u8, u8))
        ensures
            r == (self.rgb[0], self.rgb[1], self.rgb[2]),
    {
        (self.rgb[0], self.rgb[1], self.rgb[2])
    }

    /// Position of the cell in row-major order in a grid of the given side.
    pub fn linear_index(&self, sidelen: u32) -> (r: usize)
        requires
            self.y as int * sidelen as int + self.x as int <= usize::MAX,
        ensures
            r as int == self.y as int * sidelen as int + self.x as int,
    {
        proof {
            assert(0 <= self.y as int * sidelen as int) by (nonlinear_arith);
        }
        self.y as usize * sidelen as usize + self.x as usize
    }
}

/// A grid cell together with its importance for the mosaic solver.
#[derive(Clone, Copy, Debug)]
pub struct WeightedPixel {
    pub pixel: GridPixel,
    pub weight: i64,
}

impl WeightedPixel {
    pub fn coords(&self) -> (r: (u16, u16))
        ensures
            r == (self.pixel.x, self.pixel.y),
    {
        self.pixel.coords()
    }

    pub fn rgb_tuple(&self) -> (r: (u8, u8, u8))
        ensures
            r == (self.pixel.rgb[0], self.pixel.rgb[1], self.pixel.rgb[2]),
    {
        self.pixel.rgb_tuple()
    }
}

} // verus!
