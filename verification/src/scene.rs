//! A scene to render: a large ground sphere, a field of small spheres with
//! random surfaces, and three large spheres in their midst.

use std::rc::Rc;
use vstd::prelude::*;
use crate::material::{Dielectric, Lambertian, Metal, Surface};
use crate::object::{ObjectList, Sphere};
use crate::scalar::Scalar;
use crate::vec3::Vec3;

verus! {

/// The first row and column of the field of small spheres.
pub const GRID_MIN: i32 = -11;

/// One past the last row and column of the field.
pub const GRID_END: i32 = 11;

/// The bit pattern of the radius of a small sphere, and of the height of
/// its centre: two tenths.
pub const SMALL_RADIUS_BITS: u32 = 0x3e4c_cccd;

/// The bit pattern of the share of a grid cell over which a centre may
/// stray, and of the distance that a small sphere keeps from the point
/// `(4, 0.2, 0)`: nine tenths.
pub const SPREAD_BITS: u32 = 0x3f66_6666;

/// The bit pattern of the share of small spheres that are matte: eight
/// tenths.
pub const MATTE_SHARE_BITS: u32 = 0x3f4c_cccd;

/// The bit pattern of the share of small spheres that are matte or metal:
/// 0.95.
pub const OPAQUE_SHARE_BITS: u32 = 0x3f73_3333;

/// The bit pattern of the refractive index of glass, 1.5.
pub const GLASS_INDEX_BITS: u32 = 0x3fc0_0000;

/// The bit pattern of the number four.
pub const FOUR_BITS: u32 = 0x4080_0000;

/// The bit pattern of the number minus four.
pub const MINUS_FOUR_BITS: u32 = 0xc080_0000;

/// The bit pattern of the radius of the ground, 1000.
pub const GROUND_RADIUS_BITS: u32 = 0x447a_0000;

/// The bit pattern of the height of the centre of the ground, -1000.
pub const GROUND_HEIGHT_BITS: u32 = 0xc47a_0000;

/// The bit pattern of the grey of the ground, one quarter.
pub const GROUND_GREY_BITS: u32 = 0x3e80_0000;

/// The numbers drawn for one cell of the field.
#[derive(Clone, Copy, Debug, PartialEq, Eq, Structural)]
pub struct CellDraws {
    /// Selects the kind of surface.
    pub choice: Scalar,
    /// How far the centre strays along the first axis.
    pub dx: Scalar,
    /// How far the centre strays along the third axis.
    pub dz: Scalar,
    /// The colour of a matte or metal surface.
    pub albedo: Vec3,
    /// The roughness of a metal surface.
    pub fuzz: Scalar,
}

impl CellDraws {
    /// Whether every number lies in the half-open interval from zero to one.
    pub open spec fn in_unit_interval(self) -> bool {
        &&& self.choice.in_unit_interval()
        &&& self.dx.in_unit_interval()
        &&& self.dz.in_unit_interval()
        &&& self.albedo.x.in_unit_interval()
        &&& self.albedo.y.in_unit_interval()
        &&& self.albedo.z.in_unit_interval()
        &&& self.fuzz.in_unit_interval()
    }

    /// Seven numbers drawn uniformly from the unit interval.
    pub fn random() -> (r: CellDraws)
        ensures
            r.in_unit_interval(),
    {
        let choice = Scalar::random();
        let dx = Scalar::random();
        let dz = Scalar::random();
        let albedo = Vec3::new(Scalar::random(), Scalar::random(), Scalar::random());
        let fuzz = Scalar::random();
        CellDraws { choice, dx, dz, albedo, fuzz }
    }
}

/// The sphere with the given centre, radius and surface.
pub open spec fn sphere_of(center: Vec3, radius: Scalar, surface: Surface) -> Sphere {
    Sphere { center, radius, material: Rc::new(surface) }
}

/// The ground: a grey matte sphere of radius 1000 that touches the origin
/// from below.
pub open spec fn spec_ground() -> Sphere {
    sphere_of(
        Vec3 {
            x: Scalar::spec_zero(),
            y: Scalar { bits: GROUND_HEIGHT_BITS },
            z: Scalar::spec_zero(),
        },
        Scalar { bits: GROUND_RADIUS_BITS },
        Surface::Lambertian(
            Lambertian { albedo: Vec3::spec_splat(Scalar { bits: GROUND_GREY_BITS }) },
        ),
    )
}

/// The ground: a grey matte sphere of radius 1000 that touches the origin
/// from below.
pub fn ground() -> (r: Sphere)
    ensures
        r == spec_ground(),
{
    Sphere::new(
        Vec3::new(Scalar::zero(), Scalar::from_bits(GROUND_HEIGHT_BITS), Scalar::zero()),
        Scalar::from_bits(GROUND_RADIUS_BITS),
        Rc::new(
            Surface::Lambertian(
                Lambertian::new(Vec3::splat(Scalar::from_bits(GROUND_GREY_BITS))),
            ),
        ),
    )
}

/// The large sphere of glass at `(0, 1, 0)`.
pub open spec fn spec_glass_ball() -> Sphere {
    sphere_of(
        Vec3 { x: Scalar::spec_zero(), y: Scalar::spec_one(), z: Scalar::spec_zero() },
        Scalar::spec_one(),
        Surface::Dielectric(Dielectric { ir: Scalar { bits: GLASS_INDEX_BITS } }),
    )
}

/// The large matte sphere at `(-4, 1, 0)`, of the colour `(0.4, 0.2, 0.1)`.
pub open spec fn spec_matte_ball() -> Sphere {
    sphere_of(
        Vec3 {
            x: Scalar { bits: MINUS_FOUR_BITS },
            y: Scalar::spec_one(),
            z: Scalar::spec_zero(),
        },
        Scalar::spec_one(),
        Surface::Lambertian(
            Lambertian {
                albedo: Vec3 {
                    x: Scalar { bits: 0x3ecc_cccd },
                    y: Scalar { bits: 0x3e4c_cccd },
                    z: Scalar { bits: 0x3dcc_cccd },
                },
            },
        ),
    )
}

/// The large mirror at `(4, 1, 0)`, of the colour `(0.7, 0.6, 0.5)`.
pub open spec fn spec_metal_ball() -> Sphere {
    sphere_of(
        Vec3 { x: Scalar { bits: FOUR_BITS }, y: Scalar::spec_one(), z: Scalar::spec_zero() },
        Scalar::spec_one(),
        Surface::Metal(
            Metal {
                albedo: Vec3 {
                    x: Scalar { bits: 0x3f33_3333 },
                    y: Scalar { bits: 0x3f19_999a },
                    z: Scalar { bits: 0x3f00_0000 },
                },
                fuzz: Scalar::spec_zero(),
            },
        ),
    )
}

/// The centre of the small sphere of the cell `(a, b)`:
/// `(a + 0.9 * dx, 0.2, b + 0.9 * dz)`.
pub open spec fn spec_cell_center(a: i32, b: i32, dx: Scalar, dz: Scalar) -> Vec3 {
    let spread = Scalar { bits: SPREAD_BITS };
    Vec3 {
        x: Scalar::spec_from_int(a).spec_plus(spread.spec_times(dx)),
        y: Scalar { bits: SMALL_RADIUS_BITS },
        z: Scalar::spec_from_int(b).spec_plus(spread.spec_times(dz)),
    }
}

/// The centre of the small sphere of the cell `(a, b)`:
/// `(a + 0.9 * dx, 0.2, b + 0.9 * dz)`.
#[verifier::when_used_as_spec(spec_cell_center)]
pub fn cell_center(a: i32, b: i32, dx: Scalar, dz: Scalar) -> (r: Vec3)
    ensures
        r == spec_cell_center(a, b, dx, dz),
{
    let spread = Scalar::from_bits(SPREAD_BITS);
    Vec3::new(
        Scalar::from_int(a).plus(spread.times(dx)),
        Scalar::from_bits(SMALL_RADIUS_BITS),
        Scalar::from_int(b).plus(spread.times(dz)),
    )
}

/// Whether a small sphere about `center` keeps clear of the large mirror:
/// whether `center` lies farther than 0.9 from `(4, 0.2, 0)`.
pub open spec fn spec_keeps_clear(center: Vec3) -> bool {
    center.spec_minus(
        Vec3 {
            x: Scalar { bits: FOUR_BITS },
            y: Scalar { bits: SMALL_RADIUS_BITS },
            z: Scalar::spec_zero(),
        },
    ).spec_length().spec_gt(Scalar { bits: SPREAD_BITS })
}

/// Whether a small sphere about `center` keeps clear of the large mirror:
/// whether `center` lies farther than 0.9 from `(4, 0.2, 0)`.
#[verifier::when_used_as_spec(spec_keeps_clear)]
pub fn keeps_clear(center: Vec3) -> (r: bool)
    ensures
        r == spec_keeps_clear(center),
{
    center.minus(
        Vec3::new(
            Scalar::from_bits(FOUR_BITS),
            Scalar::from_bits(SMALL_RADIUS_BITS),
            Scalar::zero(),
        ),
    ).length().gt(Scalar::from_bits(SPREAD_BITS))
}

/// The surface of a small sphere: matte where `choice` is below 0.8, metal
/// where it is below 0.95, and glass otherwise.
pub open spec fn spec_small_surface(draws: CellDraws) -> Surface {
    if draws.choice.spec_lt(Scalar { bits: MATTE_SHARE_BITS }) {
        Surface::Lambertian(Lambertian { albedo: draws.albedo })
    } else if draws.choice.spec_lt(Scalar { bits: OPAQUE_SHARE_BITS }) {
        Surface::Metal(Metal { albedo: draws.albedo, fuzz: draws.fuzz })
    } else {
        Surface::Dielectric(Dielectric { ir: Scalar { bits: GLASS_INDEX_BITS } })
    }
}

/// The surface of a small sphere: matte where `choice` is below 0.8, metal
/// where it is below 0.95, and glass otherwise.
#[verifier::when_used_as_spec(spec_small_surface)]
pub fn small_surface(draws: CellDraws) -> (r: Surface)
    ensures
        r == spec_small_surface(draws),
{
    if draws.choice.lt(Scalar::from_bits(MATTE_SHARE_BITS)) {
        Surface::Lambertian(Lambertian::new(draws.albedo))
    } else if draws.choice.lt(Scalar::from_bits(OPAQUE_SHARE_BITS)) {
        Surface::Metal(Metal::new(draws.albedo, draws.fuzz))
    } else {
        Surface::Dielectric(Dielectric::new(Scalar::from_bits(GLASS_INDEX_BITS)))
    }
}

/// The small sphere of the cell `(a, b)` for the given draws, or nothing
/// where it would not keep clear of the large mirror.
pub open spec fn spec_small_sphere(a: i32, b: i32, draws: CellDraws) -> Option<Sphere> {
    let center = spec_cell_center(a, b, draws.dx, draws.dz);
    if spec_keeps_clear(center) {
        Some(sphere_of(center, Scalar { bits: SMALL_RADIUS_BITS }, spec_small_surface(draws)))
    } else {
        None
    }
}

/// The small sphere of the cell `(a, b)` for the given draws: a sphere of
/// radius 0.2 about the cell's centre with the surface that the draws
/// select, or nothing where it would not keep clear of the large mirror.
pub fn small_sphere(a: i32, b: i32, draws: CellDraws) -> (r: Option<Sphere>)
    ensures
        r == spec_small_sphere(a, b, draws),
{
    let center = cell_center(a, b, draws.dx, draws.dz);
    if keeps_clear(center) {
        Some(
            Sphere::new(
                center,
                Scalar::from_bits(SMALL_RADIUS_BITS),
                Rc::new(small_surface(draws)),
            ),
        )
    } else {
        None
    }
}

/// The number of cells of the field.
pub const CELLS: u32 = 484;

/// The row of the `k`-th cell, cells counted row by row, 22 to a row, from
/// the row and column -11.
pub open spec fn cell_row(k: int) -> i32 {
    (k / 22 - 11) as i32
}

/// The column of the `k`-th cell, cells counted row by row.
pub open spec fn cell_column(k: int) -> i32 {
    (k % 22 - 11) as i32
}

/// The small spheres of the first `cells` cells, in the order of the cells:
/// for each cell the sphere that its draws give, where they give one.
pub open spec fn field(draws: Seq<CellDraws>, cells: nat) -> Seq<Sphere>
    decreases cells,
{
    if cells == 0 {
        Seq::empty()
    } else {
        let before = field(draws, (cells - 1) as nat);
        match spec_small_sphere(cell_row(cells - 1), cell_column(cells - 1), draws[cells - 1]) {
            Some(sphere) => before.push(sphere),
            None => before,
        }
    }
}

/// The scene for the given draws, one set for each cell: the ground, then
/// the small spheres of the field in the order of the cells, then the three
/// large spheres of glass, matte and metal.
pub open spec fn scene_of(draws: Seq<CellDraws>) -> Seq<Sphere> {
    seq![spec_ground()] + field(draws, CELLS as nat) + seq![
        spec_glass_ball(),
        spec_matte_ball(),
        spec_metal_ball(),
    ]
}

/// Whether every set of `draws` lies in the unit interval.
pub open spec fn all_in_unit_interval(draws: Seq<CellDraws>) -> bool {
    forall|k: int| 0 <= k < draws.len() ==> (#[trigger] draws[k]).in_unit_interval()
}

/// Whether `objects` is a scene that `random_scene` may build: the scene
/// for some draws from the unit interval, one set for each cell.
pub open spec fn is_scene(objects: Seq<Sphere>) -> bool {
    exists|draws: Seq<CellDraws>|
        {
            &&& draws.len() == CELLS
            &&& all_in_unit_interval(draws)
            &&& objects == #[trigger] scene_of(draws)
        }
}

/// Whether `sphere` is the small sphere of some cell of the field for some
/// draws from the unit interval.
pub open spec fn is_small_sphere(sphere: Sphere) -> bool {
    exists|a: i32, b: i32, draws: CellDraws|
        {
            &&& GRID_MIN <= a < GRID_END
            &&& GRID_MIN <= b < GRID_END
            &&& draws.in_unit_interval()
            &&& #[trigger] spec_small_sphere(a, b, draws) == Some(sphere)
        }
}

/// The small spheres of the first cells depend on the draws of those cells
/// alone.
proof fn lemma_field_of_prefix(draws: Seq<CellDraws>, more: Seq<CellDraws>, cells: nat)
    requires
        cells <= draws.len(),
        draws.len() <= more.len(),
        forall|k: int| 0 <= k < draws.len() ==> draws[k] == more[k],
    ensures
        field(draws, cells) == field(more, cells),
    decreases cells,
{
    if cells > 0 {
        lemma_field_of_prefix(draws, more, (cells - 1) as nat);
    }
}

/// The field holds at most one sphere for each cell, and each is the small
/// sphere of a cell for draws from the unit interval.
pub proof fn lemma_field_shape(draws: Seq<CellDraws>, cells: nat)
    requires
        cells <= CELLS,
        cells <= draws.len(),
        all_in_unit_interval(draws),
    ensures
        field(draws, cells).len() <= cells,
        forall|i: int|
            0 <= i < field(draws, cells).len() ==> is_small_sphere(
                #[trigger] field(draws, cells)[i],
            ),
    decreases cells,
{
    if cells > 0 {
        lemma_field_shape(draws, (cells - 1) as nat);
        let a = cell_row(cells - 1);
        let b = cell_column(cells - 1);
        let d = draws[cells - 1];
        assert(d.in_unit_interval());
        match spec_small_sphere(a, b, d) {
            Some(sphere) => {
                assert(is_small_sphere(sphere));
            },
            None => {},
        }
    }
}

/// A scene has the ground first and the three large spheres last; between
/// them stand small spheres only, at most one for each cell of the field.
pub proof fn lemma_scene_shape(objects: Seq<Sphere>)
    requires
        is_scene(objects),
    ensures
        4 <= objects.len() <= 4 + CELLS,
        objects[0] == spec_ground(),
        forall|i: int| 1 <= i < objects.len() - 3 ==> is_small_sphere(#[trigger] objects[i]),
        objects[objects.len() - 3] == spec_glass_ball(),
        objects[objects.len() - 2] == spec_matte_ball(),
        objects[objects.len() - 1] == spec_metal_ball(),
{
    let draws = choose|draws: Seq<CellDraws>|
        {
            &&& draws.len() == CELLS
            &&& all_in_unit_interval(draws)
            &&& objects == #[trigger] scene_of(draws)
        };
    lemma_field_shape(draws, CELLS as nat);
    let small = field(draws, CELLS as nat);
    assert forall|i: int| 1 <= i < objects.len() - 3 implies is_small_sphere(
        #[trigger] objects[i],
    ) by {
        assert(objects[i] == small[i - 1]);
    }
}

/// A scene with randomly placed and coloured small spheres: the ground, a
/// small sphere for each cell of the field whose draws give one, row by row,
/// and the three large spheres.
pub fn random_scene() -> (world: ObjectList)
    ensures
        is_scene(world.objects@),
{
    let mut world = ObjectList::new(Vec::new());
    world.add(ground());
    let ghost mut draws: Seq<CellDraws> = Seq::empty();
    let mut a: i32 = GRID_MIN;
    while a < GRID_END
        invariant
            GRID_MIN <= a <= GRID_END,
            draws.len() == (a + 11) * 22,
            all_in_unit_interval(draws),
            world.objects@ == seq![spec_ground()] + field(draws, draws.len()),
        decreases GRID_END - a,
    {
        let mut b: i32 = GRID_MIN;
        while b < GRID_END
            invariant
                GRID_MIN <= a < GRID_END,
                GRID_MIN <= b <= GRID_END,
                draws.len() == (a + 11) * 22 + (b + 11),
                all_in_unit_interval(draws),
                world.objects@ == seq![spec_ground()] + field(draws, draws.len()),
            decreases GRID_END - b,
        {
            let cell = CellDraws::random();
            let ghost before = draws;
            let ghost objects_before = world.objects@;
            proof {
                draws = draws.push(cell);
                lemma_field_of_prefix(before, draws, before.len());
                assert(draws[before.len() as int] == cell);
                assert(cell_row(before.len() as int) == a);
                assert(cell_column(before.len() as int) == b);
            }
            if let Some(sphere) = small_sphere(a, b, cell) {
                world.add(sphere);
                proof {
                    assert(field(draws, draws.len()) == field(before, before.len()).push(sphere));
                    assert(world.objects@ =~= seq![spec_ground()] + field(draws, draws.len()));
                }
            } else {
                proof {
                    assert(field(draws, draws.len()) == field(before, before.len()));
                }
            }
            b = b + 1;
        }
        a = a + 1;
    }
    world.add(
        Sphere::new(
            Vec3::new(Scalar::zero(), Scalar::one(), Scalar::zero()),
            Scalar::one(),
            Rc::new(Surface::Dielectric(Dielectric::new(Scalar::from_bits(GLASS_INDEX_BITS)))),
        ),
    );
    world.add(
        Sphere::new(
            Vec3::new(Scalar::from_bits(MINUS_FOUR_BITS), Scalar::one(), Scalar::zero()),
            Scalar::one(),
            Rc::new(
                Surface::Lambertian(
                    Lambertian::new(
                        Vec3::new(
                            Scalar::from_bits(0x3ecc_cccd),
                            Scalar::from_bits(0x3e4c_cccd),
                            Scalar::from_bits(0x3dcc_cccd),
                        ),
                    ),
                ),
            ),
        ),
    );
    world.add(
        Sphere::new(
            Vec3::new(Scalar::from_bits(FOUR_BITS), Scalar::one(), Scalar::zero()),
            Scalar::one(),
            Rc::new(
                Surface::Metal(
                    Metal::new(
                        Vec3::new(
                            Scalar::from_bits(0x3f33_3333),
                            Scalar::from_bits(0x3f19_999a),
                            Scalar::from_bits(0x3f00_0000),
                        ),
                        Scalar::zero(),
                    ),
                ),
            ),
        ),
    );
    proof {
        assert(draws.len() == CELLS);
        assert(world.objects@ =~= scene_of(draws));
    }
    world
}

} // verus!
