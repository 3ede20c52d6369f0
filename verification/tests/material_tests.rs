use std::rc::Rc;

use path_tracer::material::{Dielectric, Lambertian, Material, Metal, Surface};
use path_tracer::object::HitRecord;
use path_tracer::ray::Ray;
use path_tracer::scalar::Scalar;
use path_tracer::util::{reflect, refract};
use path_tracer::vec3::Vec3;

fn s(x: f32) -> Scalar {
    Scalar::from_bits(x.to_bits())
}

fn f(x: Scalar) -> f32 {
    f32::from_bits(x.to_bits())
}

fn v(x: f32, y: f32, z: f32) -> Vec3 {
    Vec3::new(s(x), s(y), s(z))
}

fn a(p: Vec3) -> [f32; 3] {
    [f(p.x), f(p.y), f(p.z)]
}

fn dot(p: [f32; 3], q: [f32; 3]) -> f32 {
    p[0] * q[0] + p[1] * q[1] + p[2] * q[2]
}

fn floor_hit(ray: Ray, surface: Surface) -> HitRecord {
    HitRecord::new(v(0.0, 0.0, 0.0), Rc::new(surface), v(0.0, 1.0, 0.0), s(1.0), ray)
}

fn falling() -> Ray {
    Ray::new(v(-1.0, 1.0, 0.0), v(1.0, -1.0, 0.0))
}

#[test]
fn lambertian_keeps_its_albedo_and_a_direction() {
    let material = Lambertian::new(v(0.1, 0.2, 0.3));
    let hit = floor_hit(falling(), Surface::Lambertian(material));
    for _ in 0..500 {
        let (ray, attenuation) = material.scatter(&falling(), &hit).unwrap();
        assert_eq!(a(attenuation), [0.1, 0.2, 0.3]);
        assert_eq!(a(ray.origin), [0.0, 0.0, 0.0]);
        let d = a(ray.direction);
        assert!(dot(d, d) > 0.0);
        assert!(d[1] >= -1e-6 && d[1] <= 2.0 + 1e-6);
    }
}

#[test]
fn lambertian_adds_the_unit_vector_to_the_normal() {
    let material = Lambertian::new(v(0.1, 0.2, 0.3));
    let hit = floor_hit(falling(), Surface::Lambertian(material));
    let (ray, attenuation) = material.scatter_with(&hit, v(0.6, 0.0, 0.8));
    assert_eq!(a(ray.direction), [0.6, 1.0, 0.8]);
    assert_eq!(a(ray.origin), [0.0, 0.0, 0.0]);
    assert_eq!(a(attenuation), [0.1, 0.2, 0.3]);
}

#[test]
fn lambertian_falls_back_to_the_normal() {
    let material = Lambertian::new(v(0.1, 0.2, 0.3));
    let hit = floor_hit(falling(), Surface::Lambertian(material));
    let (ray, attenuation) = material.scatter_with(&hit, v(0.0, -1.0, 0.0));
    assert_eq!(a(ray.direction), [0.0, 1.0, 0.0]);
    assert_eq!(a(attenuation), [0.1, 0.2, 0.3]);
    let (ray, _) = material.scatter_with(&hit, v(5e-9, -1.0, -5e-9));
    assert_eq!(a(ray.direction), [0.0, 1.0, 0.0]);
}

#[test]
fn metal_without_fuzz_is_a_mirror() {
    let material = Metal::new(v(0.8, 0.6, 0.2), s(0.0));
    let hit = floor_hit(falling(), Surface::Metal(material));
    let unit = a(v(1.0, -1.0, 0.0).normalize());
    let k = 2.0 * dot(unit, [0.0, 1.0, 0.0]);
    let mirrored = [unit[0] - 0.0 * k, unit[1] - 1.0 * k, unit[2] - 0.0 * k];
    let (ray, attenuation) =
        material.scatter_with(&falling(), &hit, v(0.3, -0.2, 0.1)).unwrap();
    assert_eq!(a(ray.direction), mirrored);
    assert_eq!(a(ray.origin), [0.0, 0.0, 0.0]);
    assert_eq!(a(attenuation), [0.8, 0.6, 0.2]);
    for _ in 0..100 {
        let (ray, attenuation) = material.scatter(&falling(), &hit).unwrap();
        assert_eq!(a(ray.direction), mirrored);
        assert_eq!(a(attenuation), [0.8, 0.6, 0.2]);
    }
}

#[test]
fn metal_with_fuzz_shifts_the_mirror_direction() {
    let material = Metal::new(v(0.8, 0.6, 0.2), s(0.5));
    let ray_in = Ray::new(v(0.0, 1.0, 0.0), v(0.0, -2.0, 0.0));
    let hit = floor_hit(ray_in, Surface::Metal(material));
    let (ray, _) = material.scatter_with(&ray_in, &hit, v(0.5, -0.5, 0.25)).unwrap();
    assert_eq!(a(ray.direction), [0.25, 0.75, 0.125]);
}

#[test]
fn metal_absorbs_what_would_enter_the_surface() {
    let material = Metal::new(v(0.8, 0.6, 0.2), s(1.0));
    let grazing = Ray::new(v(-1.0, 0.1, 0.0), v(1.0, -0.1, 0.0));
    let hit = floor_hit(grazing, Surface::Metal(material));
    assert!(material.scatter_with(&grazing, &hit, v(0.0, -0.9, 0.0)).is_none());
    assert!(material.scatter_with(&grazing, &hit, v(0.0, 0.9, 0.0)).is_some());
    let along = Ray::new(v(-1.0, 0.0, 0.0), v(1.0, 0.0, 0.0));
    let flat = floor_hit(along, Surface::Metal(material));
    assert!(material.scatter_with(&along, &flat, v(0.0, 0.0, 0.0)).is_none());
}

#[test]
fn metal_result_always_leaves_the_surface() {
    let material = Metal::new(v(0.8, 0.6, 0.2), s(1.0));
    let grazing = Ray::new(v(-1.0, 0.1, 0.0), v(1.0, -0.1, 0.0));
    let hit = floor_hit(grazing, Surface::Metal(material));
    let mut scattered = 0;
    let mut absorbed = 0;
    for _ in 0..1000 {
        match material.scatter(&grazing, &hit) {
            Some((ray, attenuation)) => {
                scattered += 1;
                assert!(dot(a(ray.direction), [0.0, 1.0, 0.0]) > 0.0);
                assert_eq!(a(attenuation), [0.8, 0.6, 0.2]);
            }
            None => absorbed += 1,
        }
    }
    assert!(scattered > 0 && absorbed > 0);
}

#[test]
fn reflectance_follows_schlick() {
    let expected = |cosine: f32, idx: f32| {
        let r0 = (1.0 - idx) / (1.0 + idx);
        let r0 = r0 * r0;
        let x = 1.0 - cosine;
        let x2 = x * x;
        r0 + (1.0 - r0) * (x2 * x2 * x)
    };
    assert_eq!(f(Dielectric::reflectance(s(1.0), s(1.5))), expected(1.0, 1.5));
    assert_eq!(f(Dielectric::reflectance(s(0.0), s(1.5))), 1.0);
    assert_eq!(f(Dielectric::reflectance(s(0.5), s(1.5))), expected(0.5, 1.5));
    assert!((f(Dielectric::reflectance(s(1.0), s(1.5))) - 0.04).abs() < 1e-6);
    assert!((f(Dielectric::reflectance(s(0.5), s(1.5))) - 0.07).abs() < 1e-6);
}

#[test]
fn dielectric_attenuation_is_white_on_both_branches() {
    let material = Dielectric::new(s(1.5));
    let hit = floor_hit(falling(), Surface::Dielectric(material));
    let unit = a(v(1.0, -1.0, 0.0).normalize());
    let (mirrored, attenuation) = material.scatter_with(&falling(), &hit, s(0.0));
    assert_eq!(a(attenuation), [1.0, 1.0, 1.0]);
    let d = a(mirrored.direction);
    assert!((d[0] - unit[0]).abs() < 1e-6 && (d[1] + unit[1]).abs() < 1e-6);
    let (bent, attenuation) = material.scatter_with(&falling(), &hit, s(0.99));
    assert_eq!(a(attenuation), [1.0, 1.0, 1.0]);
    let d = a(bent.direction);
    assert!(d[1] < 0.0 && d[0] > 0.0 && d[0] < unit[0]);
    assert_eq!(a(bent.origin), [0.0, 0.0, 0.0]);
    let mut mirror_count = 0;
    let mut bend_count = 0;
    for _ in 0..2000 {
        let (ray, attenuation) = material.scatter(&falling(), &hit).unwrap();
        assert_eq!(a(attenuation), [1.0, 1.0, 1.0]);
        if f(ray.direction.y) > 0.0 {
            mirror_count += 1;
        } else {
            bend_count += 1;
        }
    }
    assert!(mirror_count > 0 && bend_count > mirror_count);
}

#[test]
fn dielectric_reflects_totally_from_inside_at_a_flat_angle() {
    let material = Dielectric::new(s(1.5));
    let ray_in = Ray::new(v(-1.0, -0.5, 0.0), v(1.0, 0.5, 0.0));
    let hit = floor_hit(ray_in, Surface::Dielectric(material));
    assert!(!hit.front_face);
    assert_eq!(a(hit.normal), [-0.0, -1.0, -0.0]);
    let (ray, attenuation) = material.scatter_with(&ray_in, &hit, s(0.99));
    assert_eq!(a(attenuation), [1.0, 1.0, 1.0]);
    let d = a(ray.direction);
    assert!(d[0] > 0.0 && d[1] < 0.0);
    let unit = a(v(1.0, 0.5, 0.0).normalize());
    assert!((d[0] - unit[0]).abs() < 1e-6 && (d[1] + unit[1]).abs() < 1e-6);
}

#[test]
fn dielectric_passes_straight_light_from_inside() {
    let material = Dielectric::new(s(1.5));
    let ray_in = Ray::new(v(0.0, -1.0, 0.0), v(0.0, 1.0, 0.0));
    let hit = floor_hit(ray_in, Surface::Dielectric(material));
    let (ray, _) = material.scatter_with(&ray_in, &hit, s(0.99));
    assert_eq!(a(ray.direction), [0.0, 1.0, 0.0]);
}

#[test]
fn surface_scatters_as_its_variant() {
    let hit = floor_hit(falling(), Surface::Dielectric(Dielectric::new(s(1.5))));
    let glass = Surface::Dielectric(Dielectric::new(s(1.5)));
    let (_, attenuation) = glass.scatter(&falling(), &hit).unwrap();
    assert_eq!(a(attenuation), [1.0, 1.0, 1.0]);
    let matte = Surface::Lambertian(Lambertian::new(v(0.3, 0.3, 0.3)));
    let (_, attenuation) = matte.scatter(&falling(), &hit).unwrap();
    assert_eq!(a(attenuation), [0.3, 0.3, 0.3]);
    let mirror = Surface::Metal(Metal::new(v(0.9, 0.9, 0.9), s(0.0)));
    let (ray, attenuation) = mirror.scatter(&falling(), &hit).unwrap();
    assert_eq!(a(attenuation), [0.9, 0.9, 0.9]);
    assert!(f(ray.direction.y) > 0.0);
}

#[test]
fn constructors_keep_their_arguments() {
    assert_eq!(a(Lambertian::new(v(0.1, 0.2, 0.3)).albedo), [0.1, 0.2, 0.3]);
    let metal = Metal::new(v(0.4, 0.5, 0.6), s(0.25));
    assert_eq!(a(metal.albedo), [0.4, 0.5, 0.6]);
    assert_eq!(f(metal.fuzz), 0.25);
    assert_eq!(f(Dielectric::new(s(1.5)).ir), 1.5);
}

#[test]
fn dielectric_direction_is_the_mirrored_or_the_refracted_one() {
    let material = Dielectric::new(s(1.5));
    let hit = floor_hit(falling(), Surface::Dielectric(material));
    let unit = falling().direction.normalize();
    let mirrored = reflect(unit, hit.normal);
    let bent = refract(unit, hit.normal, s(1.0).over(s(1.5)));
    let cosine = unit.neg().dot(hit.normal).min(s(1.0));
    let share = f(Dielectric::reflectance(cosine, s(1.5)));
    assert!(0.04 < share && share < 0.1);
    let (ray, _) = material.scatter_with(&falling(), &hit, s(share - 0.001));
    assert_eq!(a(ray.direction), a(mirrored));
    let (ray, _) = material.scatter_with(&falling(), &hit, s(share));
    assert_eq!(a(ray.direction), a(bent));
    let (ray, _) = material.scatter_with(&falling(), &hit, s(share + 0.001));
    assert_eq!(a(ray.direction), a(bent));
}
