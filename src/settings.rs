use vstd::prelude::*;
use vstd::arithmetic::div_mod::lemma_fundamental_div_mod;
use crate::imaging::{SourceImg, CropScale, CROP_UNIT, decode_rgb, decoded_rgb8};
use crate::naming::{bump_version_name, bumped_name};
use crate::pixels::{GridPixel, WeightedPixel};

verus! {

#[verifier::external_type_specification]
#[verifier::external_body]
pub struct ExUuid(uuid::Uuid);

/// Relies on uuid::Uuid::new_v4: a random identifier.
#[verifier::external_body]
fn fresh_id() -> (r: uuid::Uuid) {
    uuid::Uuid::new_v4()
}

/// Side length of the grids unless a preset says otherwise.
pub const DEFAULT_SIDELEN: u32 = 128;

pub const DEFAULT_PROXIMITY_IMPORTANCE: i64 = 13;

/// Largest side length: grid coordinates are kept in 16 bits.
pub const MAX_SIDELEN: u32 = 65535;

/// Weight of every target cell when a custom target is used.
pub const UNIFORM_WEIGHT: i64 = 255;

#[derive(Clone, Copy, Debug, PartialEq, Eq, Structural)]
pub enum Algorithm {
    Optimal,
    Genetic,
}

/// A target or weight image that could not be decoded.
#[derive(Clone, Copy, Debug, PartialEq, Eq, Structural)]
pub enum PrepareError {
    Decode,
}

/// A mosaic preset: which images go in and how they are cut to size.
pub struct GenerationSettings {
    pub id: uuid::Uuid,
    pub name: String,
    pub proximity_importance: i64,
    pub algorithm: Algorithm,
    pub sidelen: u32,
    pub custom_target: Option<SourceImg>,
    pub target_crop_scale: CropScale,
    pub source_crop_scale: CropScale,
}

/// The grid cells of a square image of side `side`, in row-major order.
pub open spec fn grid_matches(cells: Seq<GridPixel>, data: Seq<u8>, side: nat) -> bool {
    &&& cells.len() == side * side
    &&& forall|i: int|
        #![trigger cells[i]]
        0 <= i < cells.len() ==> cells[i].x as int == i % side as int && cells[i].y as int == i / side as int
            && cells[i].rgb@ == data.subrange(3 * i, 3 * i + 3)
}

/// The weights read from the red channel of a weight image.
pub open spec fn red_weights(data: Seq<u8>, n: nat) -> Seq<i64> {
    Seq::new(n, |i: int| data[3 * i] as i64)
}

impl GenerationSettings {
    pub open spec fn wf(&self) -> bool {
        &&& 0 < self.sidelen <= MAX_SIDELEN
        &&& self.sidelen * self.sidelen * 3 <= usize::MAX
        &&& self.custom_target matches Some(t) ==> t.wf()
    }

    /// The target image before cropping: the custom one, or else the decoded
    /// bundled one.
    pub open spec fn raw_target_of(&self, bundled: Seq<u8>) -> (u32, u32, Seq<u8>) {
        match self.custom_target {
            Some(t) => (t.width, t.height, t.data@),
            None => decoded_rgb8(bundled),
        }
    }

    pub open spec fn target_pixels_of(&self, bundled: Seq<u8>) -> Seq<u8> {
        let (w, h, d) = self.raw_target_of(bundled);
        self.target_crop_scale.applied(w as nat, h as nat, d, self.sidelen as nat)
    }

    pub open spec fn weights_of(&self, bundled_weights: Seq<u8>) -> Seq<i64> {
        let n = self.sidelen as nat * self.sidelen as nat;
        match self.custom_target {
            Some(_) => Seq::new(n, |i: int| UNIFORM_WEIGHT),
            None => {
                let (w, h, d) = decoded_rgb8(bundled_weights);
                red_weights(self.target_crop_scale.applied(w as nat, h as nat, d, self.sidelen as nat), n)
            },
        }
    }

    pub fn default(id: uuid::Uuid, name: String) -> (r: Self)
        ensures
            r.wf(),
            r.id == id,
            r.name == name,
            r.proximity_importance == DEFAULT_PROXIMITY_IMPORTANCE,
            r.algorithm == Algorithm::Genetic,
            r.sidelen == DEFAULT_SIDELEN,
            r.custom_target is None,
            r.target_crop_scale == (CropScale { x: 0, y: 0, scale: CROP_UNIT as u32 }),
            r.source_crop_scale == (CropScale { x: 0, y: 0, scale: CROP_UNIT as u32 }),
    {
        assert(DEFAULT_SIDELEN * DEFAULT_SIDELEN * 3 <= u32::MAX);
        GenerationSettings {
            name,
            proximity_importance: DEFAULT_PROXIMITY_IMPORTANCE,
            algorithm: Algorithm::Genetic,
            id,
            sidelen: DEFAULT_SIDELEN,
            custom_target: None,
            target_crop_scale: CropScale::identity(),
            source_crop_scale: CropScale::identity(),
        }
    }

    /// The target image before cropping; `bundled_target` holds the encoded
    /// image used when no custom target is set.
    pub fn get_raw_target(&self, bundled_target: &[u8]) -> (r: Result<SourceImg, PrepareError>)
        requires
            self.wf(),
        ensures
            r matches Ok(t) ==> t.wf() && t.width == self.raw_target_of(bundled_target@).0
                && t.height == self.raw_target_of(bundled_target@).1
                && t.data@ == self.raw_target_of(bundled_target@).2,
            r is Err ==> self.custom_target is None,
    {
        match &self.custom_target {
            Some(t) => Ok(copy_image(t)),
            None => match decode_rgb(bundled_target) {
                Ok(t) => Ok(t),
                Err(_) => Err(PrepareError::Decode),
            },
        }
    }

    pub fn set_raw_target(&mut self, img: SourceImg)
        requires
            old(self).wf(),
            img.wf(),
        ensures
            final(self).wf(),
            final(self).custom_target == Some(img),
            final(self).name == old(self).name,
            final(self).id == old(self).id,
            final(self).sidelen == old(self).sidelen,
            final(self).target_crop_scale == old(self).target_crop_scale,
            final(self).source_crop_scale == old(self).source_crop_scale,
    {
        self.custom_target = Some(img);
    }

    /// The target cut to the grid size, with one weight per cell: uniform
    /// for a custom target, else the red channel of the bundled weight image
    /// cut the same way.
    pub fn get_target(&self, bundled_target: &[u8], bundled_weights: &[u8]) -> (r: Result<
        (SourceImg, Vec<i64>),
        PrepareError,
    >)
        requires
            self.wf(),
        ensures
            r matches Ok((t, w)) ==> {
                &&& t.wf()
                &&& t.width == self.sidelen && t.height == self.sidelen
                &&& t.data@ == self.target_pixels_of(bundled_target@)
                &&& w@ == self.weights_of(bundled_weights@)
            },
            r is Err ==> self.custom_target is None,
    {
        let raw = self.get_raw_target(bundled_target)?;
        let target = self.target_crop_scale.apply(&raw, self.sidelen);
        let n = self.sidelen as usize * self.sidelen as usize;
        let weights = match &self.custom_target {
            Some(_) => {
                let mut v: Vec<i64> = Vec::new();
                let mut i: usize = 0;
                while i < n
                    invariant
                        i <= n,
                        v@ == Seq::new(i as nat, |k: int| UNIFORM_WEIGHT),
                    decreases n - i,
                {
                    v.push(UNIFORM_WEIGHT);
                    i = i + 1;
                    assert(v@ =~= Seq::new(i as nat, |k: int| UNIFORM_WEIGHT));
                }
                v
            },
            None => {
                let raw_weights = match decode_rgb(bundled_weights) {
                    Ok(img) => img,
                    Err(_) => return Err(PrepareError::Decode),
                };
                let cut = self.target_crop_scale.apply(&raw_weights, self.sidelen);
                load_weights(cut)
            },
        };
        Ok((target, weights))
    }

    /// A copy under a fresh id, with the version at the end of its name
    /// counted up.
    pub fn clone_with_new_id(&self) -> (r: Self)
        requires
            self.wf(),
        ensures
            r.wf(),
            r.name@ == bumped_name(self.name@),
            r.proximity_importance == self.proximity_importance,
            r.algorithm == self.algorithm,
            r.sidelen == self.sidelen,
            r.custom_target is Some == self.custom_target is Some,
            r.custom_target matches Some(t) ==> same_image(t, self.custom_target.unwrap()),
            r.target_crop_scale == self.target_crop_scale,
            r.source_crop_scale == self.source_crop_scale,
    {
        let custom_target = match &self.custom_target {
            Some(t) => Some(copy_image(t)),
            None => None,
        };
        GenerationSettings {
            id: fresh_id(),
            name: bump_version_name(self.name.as_str()),
            proximity_importance: self.proximity_importance,
            algorithm: self.algorithm,
            sidelen: self.sidelen,
            custom_target,
            target_crop_scale: self.target_crop_scale,
            source_crop_scale: self.source_crop_scale,
        }
    }
}

fn copy_image(img: &SourceImg) -> (r: SourceImg)
    ensures
        same_image(r, *img),
{
    let data = img.data.clone();
    assert(data@ =~= img.data@);
    SourceImg { width: img.width, height: img.height, data }
}

pub open spec fn same_image(a: SourceImg, b: SourceImg) -> bool {
    a.width == b.width && a.height == b.height && a.data@ == b.data@
}

proof fn lemma_cell(i: int, side: int)
    requires
        0 <= i < side * side,
        0 < side,
    ensures
        0 <= i / side < side,
        0 <= i % side < side,
        (i / side) * side + i % side == i,
        pixel_at_index(side, i) == 3 * i,
{
    lemma_fundamental_div_mod(i, side);
    let q = i / side;
    assert(q * side == side * q) by (nonlinear_arith);
    assert(q < side) by (nonlinear_arith)
        requires
            i == side * q + i % side,
            0 <= i % side,
            i < side * side,
            0 < side,
    ;
}

spec fn pixel_at_index(side: int, i: int) -> int {
    ((i / side) * side + i % side) * 3
}

/// The cells of a square image, in row-major order.
fn grid_cells(img: &SourceImg) -> (r: Vec<GridPixel>)
    requires
        img.wf(),
        img.width == img.height,
        0 < img.width <= MAX_SIDELEN,
    ensures
        grid_matches(r@, img.data@, img.width as nat),
{
    let side = img.width;
    let n = img.data.len() / 3;
    proof {
        assert(n == side * side);
    }
    let mut cells: Vec<GridPixel> = Vec::new();
    let mut i: usize = 0;
    while i < n
        invariant
            img.wf(),
            img.width == side,
            img.height == side,
            0 < side <= MAX_SIDELEN,
            n == side * side,
            i <= n,
            cells@.len() == i,
            forall|k: int|
                #![trigger cells@[k]]
                0 <= k < i ==> cells@[k].x as int == k % side as int && cells@[k].y as int == k / side as int
                    && cells@[k].rgb@ == img.data@.subrange(3 * k, 3 * k + 3),
        decreases n - i,
    {
        proof {
            lemma_cell(i as int, side as int);
        }
        let x = (i % side as usize) as u32;
        let y = (i / side as usize) as u32;
        let rgb = img.pixel(x, y);
        let cell = GridPixel::new(x, y, rgb);
        proof {
            assert(crate::imaging::pixel_at(side as nat, x as nat, y as nat) == 3 * i);
            assert(cell.rgb@ =~= img.data@.subrange(3 * i, 3 * i + 3));
        }
        cells.push(cell);
        assert(cells@[i as int] == cell);
        i = i + 1;
    }
    cells
}

/// One weight per pixel, read from the red channel.
pub fn load_weights(source: SourceImg) -> (r: Vec<i64>)
    requires
        source.wf(),
    ensures
        r@ == red_weights(source.data@, source.width as nat * source.height as nat),
{
    let n = source.data.len() / 3;
    proof {
        lemma_fundamental_div_mod(source.data@.len() as int, 3);
    }
    let mut weights: Vec<i64> = Vec::new();
    let mut i: usize = 0;
    while i < n
        invariant
            source.wf(),
            n == source.width * source.height,
            3 * n == source.data@.len(),
            source.data@.len() <= usize::MAX,
            i <= n,
            weights@ == red_weights(source.data@, i as nat),
        decreases n - i,
    {
        weights.push(source.data[3 * i] as i64);
        i = i + 1;
        assert(weights@ =~= red_weights(source.data@, i as nat));
    }
    weights
}

/// The source cut to the grid size as cells, and the target cut the same way
/// as cells carrying its weights, both in row-major order.
pub fn get_images(
    source: SourceImg,
    settings: &GenerationSettings,
    bundled_target: &[u8],
    bundled_weights: &[u8],
) -> (r: Result<(Vec<GridPixel>, Vec<WeightedPixel>), PrepareError>)
    requires
        source.wf(),
        settings.wf(),
    ensures
        r matches Ok((s, t)) ==> {
            let side = settings.sidelen as nat;
            let weights = settings.weights_of(bundled_weights@);
            &&& grid_matches(
                s@,
                settings.source_crop_scale.applied(source.width as nat, source.height as nat, source.data@, side),
                side,
            )
            &&& grid_matches(
                Seq::new(t@.len(), |i: int| t@[i].pixel),
                settings.target_pixels_of(bundled_target@),
                side,
            )
            &&& t@.len() == side * side
            &&& forall|i: int| 0 <= i < t@.len() ==> #[trigger] t@[i].weight == weights[i]
        },
        r is Err ==> settings.custom_target is None,
{
    let src = settings.source_crop_scale.apply(&source, settings.sidelen);
    let (target, weights) = settings.get_target(bundled_target, bundled_weights)?;
    let source_pixels = grid_cells(&src);
    let cells = grid_cells(&target);
    let n = cells.len();
    proof {
        assert(weights@.len() == n) by {
            assert(settings.weights_of(bundled_weights@).len() == n);
        }
    }
    let mut target_pixels: Vec<WeightedPixel> = Vec::new();
    let mut i: usize = 0;
    while i < n
        invariant
            i <= n,
            n == cells@.len(),
            weights@.len() == n,
            target_pixels@.len() == i,
            forall|k: int|
                0 <= k < i ==> #[trigger] target_pixels@[k] == (WeightedPixel { pixel: cells@[k], weight: weights@[k] }),
        decreases n - i,
    {
        target_pixels.push(WeightedPixel { pixel: cells[i], weight: weights[i] });
        i = i + 1;
    }
    proof {
        assert(Seq::new(target_pixels@.len(), |k: int| target_pixels@[k].pixel) =~= cells@);
    }
    Ok((source_pixels, target_pixels))
}

} // verus!
