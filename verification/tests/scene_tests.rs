use path_tracer::material::Surface;
use path_tracer::object::Sphere;
use path_tracer::scalar::Scalar;
use path_tracer::scene::{
    cell_center, ground, keeps_clear, random_scene, small_sphere, small_surface, CellDraws,
};
use path_tracer::vec3::Vec3;

fn s(x: f32) -> Scalar {
    Scalar::from_bits(x.to_bits())
}

fn f(x: Scalar) -> f32 {
    f32::from_bits(x.to_bits())
}

fn v(x: f32, y: f32, z: f32) -> Vec3 {
    Vec3::new(s(x), s(y), s(z))
}

fn a(p: Vec3) -> [f32; 3] {
    [f(p.x), f(p.y), f(p.z)]
}

fn draws(choice: f32, dx: f32, dz: f32) -> CellDraws {
    CellDraws { choice: s(choice), dx: s(dx), dz: s(dz), albedo: v(0.1, 0.2, 0.3), fuzz: s(0.4) }
}

fn check_fixed(sphere: &Sphere, center: [f32; 3], radius: f32) {
    assert_eq!(a(sphere.center), center);
    assert_eq!(f(sphere.radius), radius);
}

#[test]
fn integers_become_scalars() {
    assert_eq!(f(Scalar::from_int(-11)), -11.0);
    assert_eq!(f(Scalar::from_int(0)), 0.0);
    assert_eq!(f(Scalar::from_int(10)), 10.0);
    assert_eq!(f(Scalar::from_int(-16_777_217)), -16_777_216.0);
}

#[test]
fn vector_length() {
    assert_eq!(f(v(3.0, 4.0, 0.0).length()), 5.0);
    assert_eq!(f(v(0.0, 0.0, -2.0).length()), 2.0);
    assert_eq!(f(v(1.0, 2.0, 2.0).length()), 3.0);
}

#[test]
fn cell_centers() {
    assert_eq!(a(cell_center(3, -2, s(0.5), s(0.25))), [3.0 + 0.9 * 0.5, 0.2, -2.0 + 0.9 * 0.25]);
    assert_eq!(a(cell_center(-11, 10, s(0.0), s(0.0))), [-11.0, 0.2, 10.0]);
}

#[test]
fn small_spheres_keep_clear_of_the_mirror() {
    assert!(!keeps_clear(v(4.0, 0.2, 0.0)));
    assert!(!keeps_clear(v(4.5, 0.2, 0.5)));
    assert!(!keeps_clear(v(4.75, 0.2, 0.0)));
    assert!(keeps_clear(v(5.0, 0.2, 0.0)));
    assert!(keeps_clear(v(4.0, 0.2, -1.0)));
    assert!(small_sphere(4, 0, draws(0.5, 0.0, 0.0)).is_none());
    assert!(small_sphere(3, 0, draws(0.5, 0.5, 0.0)).is_none());
    assert!(small_sphere(3, 0, draws(0.5, 0.0, 0.0)).is_some());
}

#[test]
fn small_surface_follows_the_choice() {
    let matte = [0.0, 0.5, 0.79];
    for choice in matte {
        match small_surface(draws(choice, 0.0, 0.0)) {
            Surface::Lambertian(m) => assert_eq!(a(m.albedo), [0.1, 0.2, 0.3]),
            other => panic!("{other:?}"),
        }
    }
    let metal = [0.8, 0.9, 0.94];
    for choice in metal {
        match small_surface(draws(choice, 0.0, 0.0)) {
            Surface::Metal(m) => {
                assert_eq!(a(m.albedo), [0.1, 0.2, 0.3]);
                assert_eq!(f(m.fuzz), 0.4);
            }
            other => panic!("{other:?}"),
        }
    }
    let glass = [0.95, 0.97, 0.999];
    for choice in glass {
        match small_surface(draws(choice, 0.0, 0.0)) {
            Surface::Dielectric(m) => assert_eq!(f(m.ir), 1.5),
            other => panic!("{other:?}"),
        }
    }
}

#[test]
fn small_sphere_for_given_draws() {
    let sphere = small_sphere(-7, 5, draws(0.9, 0.5, 0.25)).unwrap();
    check_fixed(&sphere, [-7.0 + 0.9 * 0.5, 0.2, 5.0 + 0.9 * 0.25], 0.2);
    assert!(matches!(*sphere.material, Surface::Metal(_)));
}

#[test]
fn cell_draws_lie_in_the_unit_interval() {
    for _ in 0..200 {
        let d = CellDraws::random();
        for x in [d.choice, d.dx, d.dz, d.albedo.x, d.albedo.y, d.albedo.z, d.fuzz] {
            assert!(0.0 <= f(x) && f(x) < 1.0);
        }
    }
}

#[test]
fn ground_sphere() {
    let sphere = ground();
    check_fixed(&sphere, [0.0, -1000.0, 0.0], 1000.0);
    match *sphere.material {
        Surface::Lambertian(m) => assert_eq!(a(m.albedo), [0.25, 0.25, 0.25]),
        other => panic!("{other:?}"),
    }
}

#[test]
fn random_scene_has_the_fixed_spheres_around_the_field() {
    let world = random_scene();
    let n = world.objects.len();
    assert!(4 <= n && n <= 488);
    assert!(n > 400);
    check_fixed(&world.objects[0], [0.0, -1000.0, 0.0], 1000.0);
    match *world.objects[0].material {
        Surface::Lambertian(m) => assert_eq!(a(m.albedo), [0.25, 0.25, 0.25]),
        other => panic!("{other:?}"),
    }
    check_fixed(&world.objects[n - 3], [0.0, 1.0, 0.0], 1.0);
    match *world.objects[n - 3].material {
        Surface::Dielectric(m) => assert_eq!(f(m.ir), 1.5),
        other => panic!("{other:?}"),
    }
    check_fixed(&world.objects[n - 2], [-4.0, 1.0, 0.0], 1.0);
    match *world.objects[n - 2].material {
        Surface::Lambertian(m) => assert_eq!(a(m.albedo), [0.4, 0.2, 0.1]),
        other => panic!("{other:?}"),
    }
    check_fixed(&world.objects[n - 1], [4.0, 1.0, 0.0], 1.0);
    match *world.objects[n - 1].material {
        Surface::Metal(m) => {
            assert_eq!(a(m.albedo), [0.7, 0.6, 0.5]);
            assert_eq!(f(m.fuzz), 0.0);
        }
        other => panic!("{other:?}"),
    }
}

#[test]
fn random_scene_field_is_made_of_small_spheres() {
    let world = random_scene();
    let n = world.objects.len();
    let mut kinds = [0u32; 3];
    for sphere in &world.objects[1..n - 3] {
        assert_eq!(f(sphere.radius), 0.2);
        let c = a(sphere.center);
        assert_eq!(c[1], 0.2);
        assert!(-11.0 <= c[0] && c[0] < 10.9 + 1e-5);
        assert!(-11.0 <= c[2] && c[2] < 10.9 + 1e-5);
        let d = [c[0] - 4.0, c[1] - 0.2, c[2]];
        assert!((d[0] * d[0] + d[1] * d[1] + d[2] * d[2]).sqrt() > 0.9);
        match *sphere.material {
            Surface::Lambertian(m) => {
                kinds[0] += 1;
                assert!(a(m.albedo).iter().all(|x| (0.0..1.0).contains(x)));
            }
            Surface::Metal(m) => {
                kinds[1] += 1;
                assert!(a(m.albedo).iter().all(|x| (0.0..1.0).contains(x)));
                assert!((0.0..1.0).contains(&f(m.fuzz)));
            }
            Surface::Dielectric(m) => {
                kinds[2] += 1;
                assert_eq!(f(m.ir), 1.5);
            }
        }
    }
    assert!(kinds[0] > kinds[1] && kinds[1] > 0 && kinds[2] > 0);
}

#[test]
fn random_scene_follows_the_cells_in_order() {
    let world = random_scene();
    let n = world.objects.len();
    let mut last: i64 = -1;
    for sphere in &world.objects[1..n - 3] {
        let c = a(sphere.center);
        let row = c[0].floor() as i64 + 11;
        let column = c[2].floor() as i64 + 11;
        assert!((0..22).contains(&row) && (0..22).contains(&column));
        let cell = row * 22 + column;
        assert!(cell > last);
        last = cell;
    }
}
