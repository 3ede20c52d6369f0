use std::rc::Rc;

use path_tracer::camera::Camera;
use path_tracer::material::{Lambertian, Metal, Surface};
use path_tracer::object::{ObjectList, Sphere};
use path_tracer::ray::Ray;
use path_tracer::render::{
    background, color_ray, image_coordinate, render, render_pixel, sample_pixel, write_color,
};
use path_tracer::scalar::Scalar;
use path_tracer::vec3::Vec3;

fn s(x: f32) -> Scalar {
    Scalar::from_bits(x.to_bits())
}

fn f(x: Scalar) -> f32 {
    f32::from_bits(x.to_bits())
}

fn v(x: f32, y: f32, z: f32) -> Vec3 {
    Vec3::new(s(x), s(y), s(z))
}

fn a(p: Vec3) -> [f32; 3] {
    [f(p.x), f(p.y), f(p.z)]
}

fn ground() -> ObjectList {
    let grey = Rc::new(Surface::Lambertian(Lambertian::new(v(0.5, 0.5, 0.5))));
    ObjectList::new(vec![Sphere::new(v(0.0, -100.0, 0.0), s(100.0), grey)])
}

fn sharp_camera() -> Camera {
    Camera::new(
        v(0.0, 2.0, 5.0),
        v(0.0, 0.0, 0.0),
        v(0.0, 1.0, 0.0),
        s(90.0),
        s(1.5),
        s(0.0),
        s(5.0),
    )
}

#[test]
fn color_ray_without_depth_is_black() {
    let world = ground();
    let rays = [
        Ray::new(v(0.0, 1.0, 0.0), v(0.0, -1.0, 0.0)),
        Ray::new(v(0.0, 1.0, 0.0), v(0.0, 1.0, 0.0)),
        Ray::new(v(3.0, 1.0, -2.0), v(0.3, 0.1, -1.0)),
        Ray::new(v(0.0, 0.0, 0.0), v(0.0, 0.0, 0.0)),
    ];
    for ray in rays {
        assert_eq!(a(color_ray(&ray, &world, 0)), [0.0, 0.0, 0.0]);
    }
    let empty = ObjectList::new(Vec::new());
    assert_eq!(a(color_ray(&rays[1], &empty, 0)), [0.0, 0.0, 0.0]);
}

#[test]
fn background_gradient_at_the_poles() {
    let empty = ObjectList::new(Vec::new());
    let up = Ray::new(v(0.0, 0.0, 0.0), v(0.0, 1.0, 0.0));
    let down = Ray::new(v(0.0, 0.0, 0.0), v(0.0, -1.0, 0.0));
    assert_eq!(a(color_ray(&up, &empty, 1)), [0.5, 0.7, 1.0]);
    assert_eq!(a(color_ray(&down, &empty, 1)), [1.0, 1.0, 1.0]);
    assert_eq!(a(color_ray(&up, &empty, 50)), [0.5, 0.7, 1.0]);
    assert_eq!(a(background(up)), [0.5, 0.7, 1.0]);
    assert_eq!(a(background(down)), [1.0, 1.0, 1.0]);
}

#[test]
fn background_gradient_at_the_horizon() {
    let level = Ray::new(v(0.0, 0.0, 0.0), v(4.0, 0.0, 0.0));
    assert_eq!(a(background(level)), [0.5 + 0.5 * 0.5, 0.5 + 0.7 * 0.5, 1.0]);
}

#[test]
fn one_bounce_on_a_matte_sphere_is_black() {
    let world = ground();
    let ray = Ray::new(v(0.0, 1.0, 0.0), v(0.0, -1.0, 0.0));
    assert_eq!(a(color_ray(&ray, &world, 1)), [0.0, 0.0, 0.0]);
}

#[test]
fn two_bounces_on_a_matte_sphere_take_half_the_sky() {
    let world = ground();
    let ray = Ray::new(v(0.0, 1.0, 0.0), v(0.0, -1.0, 0.0));
    for _ in 0..200 {
        let c = a(color_ray(&ray, &world, 2));
        assert!(c[2] == 0.5 || c == [0.0, 0.0, 0.0]);
        if c[2] == 0.5 {
            assert!(0.25 <= c[0] && c[0] <= 0.5);
            assert!(0.35 <= c[1] && c[1] <= 0.5);
        }
    }
}

#[test]
fn mirror_sends_a_falling_ray_back_to_the_sky() {
    let mirror = Rc::new(Surface::Metal(Metal::new(v(0.5, 1.0, 0.25), s(0.0))));
    let world = ObjectList::new(vec![Sphere::new(v(0.0, -1.0, 0.0), s(1.0), mirror)]);
    let ray = Ray::new(v(0.0, 3.0, 0.0), v(0.0, -1.0, 0.0));
    assert_eq!(a(color_ray(&ray, &world, 5)), [0.25, 0.7, 0.25]);
    assert_eq!(a(color_ray(&ray, &world, 1)), [0.0, 0.0, 0.0]);
}

#[test]
fn write_color_quantizes() {
    assert_eq!(write_color(v(4.0, 0.0, 1.0), 4), [255, 0, 128]);
    assert_eq!(write_color(v(0.25, 0.5, 1.0), 1), [128, 181, 255]);
    assert_eq!(write_color(v(-1.0, 2000.0, 125.0), 500), [0, 255, 128]);
    assert_eq!(write_color(v(0.0, 0.0, 0.0), 10), [0, 0, 0]);
}

#[test]
fn image_coordinates() {
    assert_eq!(f(image_coordinate(0, s(0.0), 200)), 0.0);
    assert_eq!(f(image_coordinate(199, s(0.0), 200)), 1.0);
    assert_eq!(f(image_coordinate(99, s(0.5), 200)), 0.5);
    assert_eq!(f(image_coordinate(3, s(0.25), 5)), 3.25 / 4.0);
}

#[test]
fn camera_axes_and_rectangle() {
    let camera = Camera::with_half_height(
        v(0.0, 0.0, 0.0),
        v(0.0, 0.0, -1.0),
        v(0.0, 1.0, 0.0),
        s(1.0),
        s(2.0),
        s(0.5),
        s(3.0),
    );
    assert_eq!(a(camera.w_axis), [0.0, 0.0, 1.0]);
    assert_eq!(a(camera.u_axis), [1.0, 0.0, 0.0]);
    assert_eq!(a(camera.v_axis), [0.0, 1.0, 0.0]);
    assert_eq!(a(camera.origin), [0.0, 0.0, 0.0]);
    assert_eq!(a(camera.horizontal), [12.0, 0.0, 0.0]);
    assert_eq!(a(camera.vertical), [0.0, 6.0, 0.0]);
    assert_eq!(a(camera.lower_left_corner), [-6.0, -3.0, -3.0]);
    assert_eq!(f(camera.lens_radius), 0.25);
}

#[test]
fn camera_ray_through_a_point_of_the_lens() {
    let camera = Camera::with_half_height(
        v(0.0, 0.0, 0.0),
        v(0.0, 0.0, -1.0),
        v(0.0, 1.0, 0.0),
        s(1.0),
        s(2.0),
        s(0.5),
        s(3.0),
    );
    let centre = camera.ray_through(s(0.5), s(0.5), v(0.0, 0.0, 0.0));
    assert_eq!(a(centre.origin), [0.0, 0.0, 0.0]);
    assert_eq!(a(centre.direction), [0.0, 0.0, -3.0]);
    let corner = camera.ray_through(s(1.0), s(0.0), v(0.0, 0.0, 0.0));
    assert_eq!(a(corner.direction), [6.0, -3.0, -3.0]);
    let shifted = camera.ray_through(s(0.5), s(0.5), v(1.0, -1.0, 0.0));
    assert_eq!(a(shifted.origin), [0.25, -0.25, 0.0]);
    assert_eq!(a(shifted.direction), [-0.25, 0.25, -3.0]);
    assert_eq!(a(shifted.at(s(1.0))), [0.0, 0.0, -3.0]);
}

#[test]
fn camera_rays_meet_in_the_plane_of_focus() {
    let camera = Camera::new(
        v(0.0, 0.0, 0.0),
        v(0.0, 0.0, -1.0),
        v(0.0, 1.0, 0.0),
        s(90.0),
        s(1.0),
        s(2.0),
        s(4.0),
    );
    assert!((f(camera.vertical.y) - 8.0).abs() < 1e-5);
    let mut moved = false;
    for _ in 0..200 {
        let ray = camera.get_ray(s(0.5), s(0.5));
        let o = a(ray.origin);
        assert!(o[0] * o[0] + o[1] * o[1] < 1.0 + 1e-5);
        assert_eq!(o[2], 0.0);
        moved |= o[0] != 0.0;
        let p = a(ray.at(s(1.0)));
        assert!(p[0].abs() < 1e-5 && p[1].abs() < 1e-5 && (p[2] + 4.0).abs() < 1e-5);
    }
    assert!(moved);
}

#[test]
fn pinhole_camera_rays_start_at_the_eye() {
    let camera = sharp_camera();
    for _ in 0..50 {
        let ray = camera.get_ray(s(0.3), s(0.8));
        assert_eq!(a(ray.origin), [0.0, 2.0, 5.0]);
    }
}

#[test]
fn pixels_on_the_sphere_differ_from_pixels_of_the_sky() {
    let world = ground();
    let camera = sharp_camera();
    let (width, height) = (12u32, 8u32);
    let image = render(&camera, &world, width, height, 1, 1);
    assert_eq!(image.len(), 96);
    for x in 0..width {
        let sky = image[x as usize];
        let sphere = image[((height - 1) * width + x) as usize];
        assert_eq!(sphere, [0, 0, 0]);
        assert_ne!(sky, sphere);
        assert!(sky[2] >= 255 && sky[0] >= 180 && sky[1] >= 200);
    }
}

#[test]
fn render_pixel_matches_the_scene() {
    let world = ground();
    let camera = sharp_camera();
    assert_eq!(render_pixel(&camera, &world, 6, 7, 12, 8, 4, 1), [0, 0, 0]);
    let sky = render_pixel(&camera, &world, 6, 0, 12, 8, 4, 1);
    assert_ne!(sky, [0, 0, 0]);
    assert_eq!(render_pixel(&camera, &world, 6, 0, 12, 8, 4, 0), [0, 0, 0]);
    assert_eq!(render_pixel(&camera, &world, 6, 0, 12, 8, 0, 1), [0, 0, 0]);
}

#[test]
fn sample_pixel_sees_sky_above_and_sphere_below() {
    let world = ground();
    let camera = sharp_camera();
    let top = a(sample_pixel(&camera, &world, 6, 0, 12, 8, 1));
    assert!(top[2] == 1.0 && top[0] < 1.0 && top[0] >= 0.5);
    let bottom = a(sample_pixel(&camera, &world, 6, 7, 12, 8, 1));
    assert_eq!(bottom, [0.0, 0.0, 0.0]);
    assert_eq!(a(sample_pixel(&camera, &world, 6, 0, 12, 8, 0)), [0.0, 0.0, 0.0]);
}

#[test]
fn render_is_row_major_from_the_top() {
    let world = ground();
    let camera = sharp_camera();
    let image = render(&camera, &world, 3, 5, 2, 3);
    assert_eq!(image.len(), 15);
    assert!(image[0][2] > image[14][2]);
    let single = render(&camera, &world, 1, 1, 1, 1);
    assert_eq!(single.len(), 1);
}
