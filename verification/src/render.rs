//! The radiance estimate along a ray, and the pixels made of it.

use vstd::prelude::*;
use crate::camera::Camera;
use crate::material::Material;
use crate::object::{HitRecord, Object};
use crate::ray::Ray;
use crate::scalar::{Scalar, INFINITY_BITS};
use crate::util::{clamp, spec_clamp};
use crate::vec3::Vec3;

verus! {

/// The bit pattern of the smallest ray parameter at which a hit counts: one
/// thousandth, which keeps a scattered ray off the surface it left.
pub const T_MIN_BITS: u32 = 0x3a83_126f;

/// The bit pattern of the number one half.
pub const HALF_BITS: u32 = 0x3f00_0000;

/// The bit pattern of the green share of the sky's blue, seven tenths.
pub const SKY_GREEN_BITS: u32 = 0x3f33_3333;

/// The bit pattern of the largest channel value before quantization, 0.999.
pub const CHANNEL_MAX_BITS: u32 = 0x3f7f_be77;

/// The bit pattern of the number of levels of a channel, 256.
pub const LEVELS_BITS: u32 = 0x4380_0000;

/// The colour white.
pub open spec fn white() -> Vec3 {
    Vec3::spec_splat(Scalar::spec_one())
}

/// The blue of the sky.
pub open spec fn sky_blue() -> Vec3 {
    Vec3 { x: Scalar { bits: HALF_BITS }, y: Scalar { bits: SKY_GREEN_BITS }, z: Scalar::spec_one() }
}

/// How far up the sky a ray points, from 0 to 1: `0.5 * (y + 1)` for the
/// height `y` of its unit direction.
pub open spec fn sky_height(ray: Ray) -> Scalar {
    Scalar { bits: HALF_BITS }.spec_times(
        ray.direction.spec_normalize().y.spec_plus(Scalar::spec_one()),
    )
}

/// The colour of the sky along a ray.
pub open spec fn spec_background(ray: Ray) -> Vec3 {
    let t = sky_height(ray);
    white().spec_scaled(Scalar::spec_one().spec_minus(t)).spec_plus(sky_blue().spec_scaled(t))
}

/// The colour of the sky along a ray: white at the bottom, blue at the top,
/// and blended in between by the height of the ray's unit direction.
#[verifier::when_used_as_spec(spec_background)]
pub fn background(ray: Ray) -> (r: Vec3)
    ensures
        r == spec_background(ray),
{
    let one = Scalar::one();
    let unit = ray.direction.normalize();
    let t = Scalar::from_bits(HALF_BITS).times(unit.y.plus(one));
    let white = Vec3::splat(one);
    let blue = Vec3::new(Scalar::from_bits(HALF_BITS), Scalar::from_bits(SKY_GREEN_BITS), one);
    white.scaled(one.minus(t)).plus(blue.scaled(t))
}

/// Whether the surface at `hit` may scatter `ray` into `next` with the given
/// attenuation, and `color` is that attenuation times `incoming`.
pub open spec fn is_bounce(
    ray: Ray,
    hit: HitRecord,
    next: Ray,
    attenuation: Vec3,
    incoming: Vec3,
    color: Vec3,
) -> bool {
    &&& hit.material.may_scatter(ray, hit, Some((next, attenuation)))
    &&& color == attenuation.spec_times(incoming)
}

/// Whether `color` is one of the estimates that `color_ray` may give for a
/// ray with `depth` bounces left.
///
/// With no bounce left the estimate is black. A ray that hits nothing at a
/// parameter above one thousandth gets the colour of the sky. A ray that
/// hits a surface gets black where the surface absorbs it, and otherwise
/// the attenuation times an estimate for the scattered ray with one bounce
/// less.
pub open spec fn is_radiance<O: Object>(world: &O, ray: Ray, depth: nat, color: Vec3) -> bool
    decreases depth,
{
    if depth == 0 {
        color == Vec3::spec_zero()
    } else {
        match world.spec_hit(ray, Scalar { bits: T_MIN_BITS }, Scalar::spec_infinity()) {
            None => color == spec_background(ray),
            Some(hit) => {
                ||| (hit.material.may_scatter(ray, hit, None) && color == Vec3::spec_zero())
                ||| exists|next: Ray, attenuation: Vec3, incoming: Vec3|
                    #[trigger] is_bounce(ray, hit, next, attenuation, incoming, color)
                        && is_radiance(world, next, (depth - 1) as nat, incoming)
            },
        }
    }
}

/// An estimate of the light that arrives along the ray `r`, following it
/// through at most `depth` bounces.
pub fn color_ray<O: Object>(r: &Ray, world: &O, depth: u32) -> (c: Vec3)
    ensures
        is_radiance(world, *r, depth as nat, c),
        depth == 0 ==> c == Vec3::spec_zero(),
    decreases depth,
{
    if depth == 0 {
        return Vec3::zero();
    }
    match world.hit(r, Scalar::from_bits(T_MIN_BITS), Scalar::infinity()) {
        Some(hit) => {
            match hit.material.scatter(r, &hit) {
                Some((ray, attenuation)) => {
                    let incoming = color_ray(&ray, world, depth - 1);
                    let c = attenuation.times(incoming);
                    proof {
                        assert(is_bounce(*r, hit, ray, attenuation, incoming, c));
                    }
                    c
                },
                None => Vec3::zero(),
            }
        },
        None => background(*r),
    }
}

/// With no bounce left, the only estimate is black, whatever the ray and
/// the scene.
pub proof fn lemma_no_bounce_is_black<O: Object>(world: &O, ray: Ray, color: Vec3)
    requires
        is_radiance(world, ray, 0, color),
    ensures
        color == Vec3::spec_zero(),
{
}

/// With a bounce left, a ray that hits nothing gets the colour of the sky.
pub proof fn lemma_miss_is_background<O: Object>(world: &O, ray: Ray, depth: nat, color: Vec3)
    requires
        depth > 0,
        world.spec_hit(ray, Scalar { bits: T_MIN_BITS }, Scalar::spec_infinity()) is None,
        is_radiance(world, ray, depth, color),
    ensures
        color == spec_background(ray),
{
}

/// One channel of a pixel: the mean of the samples, gamma-corrected by a
/// square root, held within 0 and 0.999, and scaled to 256 levels.
pub open spec fn spec_channel(sum: Scalar, scale: Scalar) -> u8 {
    spec_clamp(
        sum.spec_times(scale).spec_root(),
        Scalar::spec_zero(),
        Scalar { bits: CHANNEL_MAX_BITS },
    ).spec_times(Scalar { bits: LEVELS_BITS }).spec_to_byte()
}

/// The pixel for the sum `c` of `samples` colour samples.
pub open spec fn spec_write_color(c: Vec3, samples: u32) -> [u8; 3] {
    let scale = Scalar::spec_one().spec_over(Scalar::spec_from_count(samples));
    [spec_channel(c.x, scale), spec_channel(c.y, scale), spec_channel(c.z, scale)]
}

fn channel(sum: Scalar, scale: Scalar) -> (r: u8)
    ensures
        r == spec_channel(sum, scale),
{
    clamp(sum.times(scale).root(), Scalar::zero(), Scalar::from_bits(CHANNEL_MAX_BITS)).times(
        Scalar::from_bits(LEVELS_BITS),
    ).to_byte()
}

/// The pixel for the sum `c` of `samples` colour samples, as red, green and
/// blue: each channel is divided by the number of samples, gamma-corrected
/// by a square root, held within 0 and 0.999, multiplied by 256 and cut to
/// its integer part.
pub fn write_color(c: Vec3, samples: u32) -> (r: [u8; 3])
    ensures
        r == spec_write_color(c, samples),
{
    let scale = Scalar::one().over(Scalar::from_count(samples));
    [channel(c.x, scale), channel(c.y, scale), channel(c.z, scale)]
}

/// The image coordinate of the position `index + jitter` along an edge of
/// `extent` pixels: that position over `extent - 1`.
pub open spec fn spec_image_coordinate(index: u32, jitter: Scalar, extent: u32) -> Scalar {
    Scalar::spec_from_count(index).spec_plus(jitter).spec_over(
        Scalar::spec_from_count((extent - 1) as u32),
    )
}

/// The image coordinate of the position `index + jitter` along an edge of
/// `extent` pixels: that position over `extent - 1`.
pub fn image_coordinate(index: u32, jitter: Scalar, extent: u32) -> (r: Scalar)
    requires
        extent >= 1,
    ensures
        r == spec_image_coordinate(index, jitter, extent),
{
    Scalar::from_count(index).plus(jitter).over(Scalar::from_count(extent - 1))
}

/// Whether `color` is one of the samples that `sample_pixel` may give.
pub open spec fn is_pixel_sample<O: Object>(
    camera: &Camera,
    world: &O,
    x: u32,
    y: u32,
    width: u32,
    height: u32,
    max_depth: u32,
    color: Vec3,
) -> bool {
    exists|jitter_u: Scalar, jitter_v: Scalar, ray: Ray|
        {
            &&& jitter_u.in_unit_interval()
            &&& jitter_v.in_unit_interval()
            &&& #[trigger] camera.is_ray_for(
                spec_image_coordinate(x, jitter_u, width),
                spec_image_coordinate((height - y) as u32, jitter_v, height),
                ray,
            )
            &&& is_radiance(world, ray, max_depth as nat, color)
        }
}

/// One colour sample for the pixel in column `x` of row `y`, rows counted
/// from the top: the estimate along a camera ray through a random point of
/// the pixel.
pub fn sample_pixel<O: Object>(
    camera: &Camera,
    world: &O,
    x: u32,
    y: u32,
    width: u32,
    height: u32,
    max_depth: u32,
) -> (c: Vec3)
    requires
        width >= 1,
        height >= 1,
        y <= height,
    ensures
        is_pixel_sample(camera, world, x, y, width, height, max_depth, c),
        max_depth == 0 ==> c == Vec3::spec_zero(),
{
    let jitter_u = Scalar::random();
    let jitter_v = Scalar::random();
    let u = image_coordinate(x, jitter_u, width);
    let v = image_coordinate(height - y, jitter_v, height);
    let ray = camera.get_ray(u, v);
    color_ray(&ray, world, max_depth)
}

/// Whether `sample` is a sample of the pixel and `sum` is `before` plus
/// `sample`.
pub open spec fn is_sum_step<O: Object>(
    camera: &Camera,
    world: &O,
    x: u32,
    y: u32,
    width: u32,
    height: u32,
    max_depth: u32,
    before: Vec3,
    sample: Vec3,
    sum: Vec3,
) -> bool {
    &&& is_pixel_sample(camera, world, x, y, width, height, max_depth, sample)
    &&& sum == before.spec_plus(sample)
}

/// Whether `sum` is what adding up `count` samples of a pixel, starting
/// from black, may give.
pub open spec fn is_sample_sum<O: Object>(
    camera: &Camera,
    world: &O,
    x: u32,
    y: u32,
    width: u32,
    height: u32,
    max_depth: u32,
    count: nat,
    sum: Vec3,
) -> bool
    decreases count,
{
    if count == 0 {
        sum == Vec3::spec_zero()
    } else {
        exists|before: Vec3, sample: Vec3|
            #[trigger] is_sum_step(
                camera,
                world,
                x,
                y,
                width,
                height,
                max_depth,
                before,
                sample,
                sum,
            ) && is_sample_sum(
                camera,
                world,
                x,
                y,
                width,
                height,
                max_depth,
                (count - 1) as nat,
                before,
            )
    }
}

/// Whether `pixel` is what `render_pixel` may return: the quantized mean of
/// `samples` samples.
pub open spec fn is_pixel<O: Object>(
    camera: &Camera,
    world: &O,
    x: u32,
    y: u32,
    width: u32,
    height: u32,
    samples: u32,
    max_depth: u32,
    pixel: [u8; 3],
) -> bool {
    exists|sum: Vec3|
        #[trigger] is_sample_sum(
            camera,
            world,
            x,
            y,
            width,
            height,
            max_depth,
            samples as nat,
            sum,
        ) && pixel == spec_write_color(sum, samples)
}

/// The pixel in column `x` of row `y`, rows counted from the top: `samples`
/// colour samples, added up and quantized.
pub fn render_pixel<O: Object>(
    camera: &Camera,
    world: &O,
    x: u32,
    y: u32,
    width: u32,
    height: u32,
    samples: u32,
    max_depth: u32,
) -> (pixel: [u8; 3])
    requires
        width >= 1,
        height >= 1,
        y <= height,
    ensures
        is_pixel(camera, world, x, y, width, height, samples, max_depth, pixel),
{
    let mut color = Vec3::zero();
    let mut taken: u32 = 0;
    while taken < samples
        invariant
            taken <= samples,
            width >= 1,
            height >= 1,
            y <= height,
            is_sample_sum(camera, world, x, y, width, height, max_depth, taken as nat, color),
        decreases samples - taken,
    {
        let sample = sample_pixel(camera, world, x, y, width, height, max_depth);
        let ghost before = color;
        color = color.plus(sample);
        proof {
            assert(is_sum_step(
                camera,
                world,
                x,
                y,
                width,
                height,
                max_depth,
                before,
                sample,
                color,
            ));
        }
        taken = taken + 1;
    }
    write_color(color, samples)
}

/// The place of the pixel in column `x` of row `y` in an image stored row by
/// row.
pub open spec fn pixel_index(x: u32, y: u32, width: u32) -> int {
    y * width + x
}

/// The image of `width` by `height` pixels, row by row from the top, each
/// pixel as red, green and blue.
pub fn render<O: Object>(
    camera: &Camera,
    world: &O,
    width: u32,
    height: u32,
    samples: u32,
    max_depth: u32,
) -> (image: Vec<[u8; 3]>)
    requires
        width >= 1,
        height >= 1,
        width * height <= usize::MAX,
    ensures
        image.len() == width * height,
        forall|x: u32, y: u32|
            x < width && y < height ==> is_pixel(
                camera,
                world,
                x,
                y,
                width,
                height,
                samples,
                max_depth,
                image[#[trigger] pixel_index(x, y, width)],
            ),
{
    let mut image: Vec<[u8; 3]> = Vec::new();
    let mut y: u32 = 0;
    while y < height
        invariant
            y <= height,
            width >= 1,
            height >= 1,
            width * height <= usize::MAX,
            image.len() == y * width,
            forall|px: u32, py: u32|
                px < width && py < y ==> is_pixel(
                    camera,
                    world,
                    px,
                    py,
                    width,
                    height,
                    samples,
                    max_depth,
                    image[#[trigger] pixel_index(px, py, width)],
                ),
        decreases height - y,
    {
        let mut x: u32 = 0;
        while x < width
            invariant
                x <= width,
                y < height,
                width >= 1,
                height >= 1,
                width * height <= usize::MAX,
                image.len() == y * width + x,
                forall|px: u32, py: u32|
                    px < width && (py < y || (py == y && px < x)) ==> is_pixel(
                        camera,
                        world,
                        px,
                        py,
                        width,
                        height,
                        samples,
                        max_depth,
                        image[#[trigger] pixel_index(px, py, width)],
                    ),
            decreases width - x,
        {
            let pixel = render_pixel(camera, world, x, y, width, height, samples, max_depth);
            let ghost before = image@;
            image.push(pixel);
            proof {
                assert forall|px: u32, py: u32|
                    px < width && (py < y || (py == y && px < x + 1)) implies is_pixel(
                    camera,
                    world,
                    px,
                    py,
                    width,
                    height,
                    samples,
                    max_depth,
                    image[#[trigger] pixel_index(px, py, width)],
                ) by {
                    if py == y && px == x {
                        assert(image[pixel_index(px, py, width)] == pixel);
                    } else {
                        lemma_index_before(px, py, x, y, width);
                        assert(image[pixel_index(px, py, width)] == before[pixel_index(
                            px,
                            py,
                            width,
                        )]);
                    }
                }
            }
            x = x + 1;
        }
        proof {
            assert((y + 1) * width == y * width + width) by (nonlinear_arith);
        }
        y = y + 1;
    }
    proof {
        assert(height * width == width * height) by (nonlinear_arith);
    }
    image
}

/// In an image stored row by row, a pixel that comes before another in
/// reading order is stored before it.
proof fn lemma_index_before(px: u32, py: u32, x: u32, y: u32, width: u32)
    requires
        px < width,
        py < y || (py == y && px < x),
    ensures
        0 <= pixel_index(px, py, width) < pixel_index(x, y, width),
{
    if py < y {
        assert(py * width + width <= y * width) by (nonlinear_arith)
            requires
                py < y,
        ;
    }
    assert(0 <= py * width) by (nonlinear_arith);
}

} // verus!
