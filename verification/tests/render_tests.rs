use raytrace::fixed::{Fx, FX_ONE};
use raytrace::vec3::Vec3;
use raytrace::ray::Ray;
use raytrace::color::{Color, write_color};
use raytrace::aabb::{AABB, surrounding_box};
use raytrace::texture::{Texture, SolidColor, CheckerTexture, ImageTexture};
use raytrace::material::{Material, Lambertian, Metal, Dielectric, DiffuseLight, refract, reflect};
use raytrace::sphere::{Sphere, MovingSphere, random_in_unit_sphere};
use raytrace::hittable::{Hittable, Translate, RotateY};
use raytrace::boxes::BoxEntity;
use raytrace::hittable_list::HittableList;
use raytrace::perlin::Perlin;
use raytrace::tracer::ray_color;

fn vi(x: i64, y: i64, z: i64) -> Vec3 {
    Vec3::new(Fx::from_int(x), Fx::from_int(y), Fx::from_int(z))
}

fn vb(x: i64, y: i64, z: i64) -> Vec3 {
    Vec3::new(Fx::from_bits(x), Fx::from_bits(y), Fx::from_bits(z))
}

fn gray() -> Material {
    let half = Fx::from_bits(32768);
    Material::Lambertian(Lambertian::new_from_color(Color(Vec3::new(half, half, half))))
}

#[test]
fn aabb_union_commutative_and_associative() {
    let a = AABB::new(vi(0, 0, 0), vi(1, 2, 3));
    let b = AABB::new(vi(-1, 5, 0), vi(4, 6, 1));
    let c = AABB::new(vi(2, -3, -7), vi(3, 1, 9));
    let ab = surrounding_box(&a, &b);
    let ba = surrounding_box(&b, &a);
    assert_eq!(ab.min, ba.min);
    assert_eq!(ab.max, ba.max);
    let ab_c = surrounding_box(&surrounding_box(&a, &b), &c);
    let a_bc = surrounding_box(&a, &surrounding_box(&b, &c));
    assert_eq!(ab_c.min, a_bc.min);
    assert_eq!(ab_c.max, a_bc.max);
    assert_eq!(ab.min, vi(-1, 0, 0));
    assert_eq!(ab.max, vi(4, 6, 3));
}

#[test]
fn aabb_slab_hit_and_miss() {
    let b = AABB::new(vi(-1, -1, -1), vi(1, 1, 1));
    let toward = Ray::new_without_move(vi(0, 0, 5), vi(0, 0, -1));
    let away = Ray::new_without_move(vi(0, 0, 5), vi(0, 0, 1));
    assert!(b.hit(&toward, Fx::from_int(0), Fx::from_int(100)));
    assert!(!b.hit(&away, Fx::from_int(0), Fx::from_int(100)));
}

#[test]
fn sphere_head_on_hit_parameter() {
    // Fired at the center from distance 4 against radius 1: t = 3.
    let s = Sphere { center: vi(0, 0, 0), radius: Fx::from_int(1), material: gray() };
    let r = Ray::new_without_move(vi(0, 0, 4), vi(0, 0, -1));
    let rec = s.hit(&r, Fx::from_int(0), Fx::from_int(100)).unwrap();
    assert_eq!(rec.t, Fx::from_int(3));
    assert_eq!(rec.p, vi(0, 0, 1));
    assert!(rec.is_front_face);
}

#[test]
fn normal_faces_against_ray() {
    let s = Sphere { center: vi(0, 0, 0), radius: Fx::from_int(1), material: gray() };
    // Front entry from outside, and back entry from the inside.
    let outside = Ray::new_without_move(vi(0, 0, 4), vi(0, 0, -1));
    let inside = Ray::new_without_move(vi(0, 0, 0), vi(0, 0, -1));
    let slanted = Ray::new_without_move(vi(3, 2, 4), vb(-29000, -20000, -41000));
    for r in [outside, inside, slanted] {
        if let Some(rec) = s.hit(&r, Fx::from_bits(66), Fx::from_bits(i64::MAX)) {
            assert!(r.direction.dot(rec.normal).bits <= 0);
        }
    }
    assert!(!s.hit(&inside, Fx::from_bits(66), Fx::from_bits(i64::MAX)).unwrap().is_front_face);
}

#[test]
fn collection_returns_closest_hit() {
    let near = Sphere { center: vi(0, 0, -2), radius: Fx::from_int(1), material: gray() };
    let far = Sphere { center: vi(0, 0, -10), radius: Fx::from_int(1), material: gray() };
    let mut world = HittableList::new();
    world.add(Hittable::Sphere(Sphere {
        center: vi(0, 0, -10),
        radius: Fx::from_int(1),
        material: gray(),
    }));
    world.add(Hittable::Sphere(Sphere {
        center: vi(0, 0, -2),
        radius: Fx::from_int(1),
        material: gray(),
    }));
    let r = Ray::new_without_move(vi(0, 0, 0), vi(0, 0, -1));
    let t0 = Fx::from_int(0);
    let t1 = Fx::from_int(1000);
    let whole = world.hit(&r, t0, t1).unwrap();
    let near_alone = near.hit(&r, t0, t1).unwrap();
    let far_alone = far.hit(&r, t0, t1).unwrap();
    assert!(whole.t.bits <= near_alone.t.bits);
    assert!(whole.t.bits <= far_alone.t.bits);
    assert_eq!(whole.t, Fx::from_int(1));
}

#[test]
fn lambertian_and_metal_attenuation_in_unit_range() {
    let half = Fx::from_bits(32768);
    let albedo = Color(Vec3::new(half, half, half));
    let lam = Material::Lambertian(Lambertian::new_from_color(albedo));
    let met = Material::Metal(Metal::new(albedo, Fx::from_bits(13107)));
    let s = Sphere { center: vi(0, 0, 0), radius: Fx::from_int(1), material: lam };
    let r = Ray::new_without_move(vi(0, 0, 4), vi(0, 0, -1));
    let rec = s.hit(&r, Fx::from_bits(66), Fx::from_bits(i64::MAX)).unwrap();
    let (_, att) = rec.material.scatter(&r, &rec).unwrap();
    assert_eq!(att, albedo);
    for c in [att.0.x, att.0.y, att.0.z] {
        assert!(0 <= c.bits && c.bits <= FX_ONE);
    }
    if let Some((scattered, att2)) = met.scatter(&r, &rec) {
        assert_eq!(att2, albedo);
        assert!(scattered.direction.dot(rec.normal).bits > 0);
    }
}

#[test]
fn dielectric_normal_incidence_refracts_straight() {
    // Index 1.5, unit incoming direction straight down the axis.
    let ratio = Fx::from_int(1).div(Fx::from_bits(98304));
    let refracted = refract(vi(0, 0, -1), vi(0, 0, 1), ratio);
    assert_eq!(refracted, vi(0, 0, -1));
}

#[test]
fn dielectric_always_scatters_white() {
    let glass = Material::Dielectric(Dielectric { ref_idx: Fx::from_bits(98304) });
    let s = Sphere { center: vi(0, 0, 0), radius: Fx::from_int(1), material: gray() };
    let r = Ray::new_without_move(vi(0, 0, 4), vi(0, 0, -1));
    let rec = s.hit(&r, Fx::from_bits(66), Fx::from_bits(i64::MAX)).unwrap();
    let (scattered, att) = glass.scatter(&r, &rec).unwrap();
    assert_eq!(att, Color(vi(1, 1, 1)));
    assert_eq!(scattered.origin, rec.p);
}

#[test]
fn perlin_noise_is_deterministic() {
    let field = Perlin::new();
    let p = vb(12345, -67890, 424242);
    assert_eq!(field.noise(&p), field.noise(&p));
    assert_eq!(field.turb(&p, 7), field.turb(&p, 7));
}

#[test]
fn perlin_permutation_covers_every_index() {
    let mut table = Perlin::perlin_generate_perm();
    table.sort();
    let expected: Vec<u8> = (0u16..256).map(|v| v as u8).collect();
    assert_eq!(table, expected);
}

#[test]
fn checker_picks_by_sine_sign() {
    let dark = Color(vb(6554, 6554, 6554));
    let light = Color(vb(62259, 62259, 62259));
    let checker = Texture::Checker(CheckerTexture::new(dark, light));
    // All sines positive: the even color.
    let even_point = vb(13107, 13107, 13107);
    // One sine negative: the odd color.
    let odd_point = vb(26214, 13107, 13107);
    let zero = Fx::from_int(0);
    assert_eq!(checker.value(zero, zero, &even_point), light);
    assert_eq!(checker.value(zero, zero, &odd_point), dark);
}

#[test]
fn image_texture_nearest_lookup() {
    let img = ImageTexture::new_from_pixels(vec![255, 0, 128], 1, 1);
    let tex = Texture::Image(img);
    let zero = Fx::from_int(0);
    let c = tex.value(zero, zero, &vi(0, 0, 0));
    assert_eq!(c.0.x.bits, 65535);
    assert_eq!(c.0.y.bits, 0);
    assert_eq!(c.0.z.bits, 128 * 257);
}

#[test]
fn solid_color_ignores_coordinates() {
    let c = Color(vb(100, 200, 300));
    let tex = Texture::Solid(SolidColor::new_from_color(c));
    assert_eq!(tex.value(Fx::from_int(0), Fx::from_int(1), &vi(7, 8, 9)), c);
}

#[test]
fn write_color_quantizes_and_averages() {
    assert_eq!(write_color(Color(vi(0, 0, 0)), 100), "0 0 0\n");
    assert_eq!(write_color(Color(vi(1, 1, 1)), 1), "255 255 255\n");
}

#[test]
fn ray_color_miss_returns_background() {
    let world = HittableList::new();
    let sky = Color(vb(45875, 52429, 65536));
    let r = Ray::new_without_move(vi(0, 0, 0), vi(0, 0, -1));
    assert_eq!(ray_color(&r, sky, &world, 50), sky);
}

#[test]
fn ray_color_emitter_returns_emission() {
    let glow = Color(vi(4, 4, 4));
    let light = Material::DiffuseLight(DiffuseLight::new(glow));
    let mut world = HittableList::new();
    world.add(Hittable::Sphere(Sphere {
        center: vi(0, 0, -2),
        radius: Fx::from_int(1),
        material: light,
    }));
    let r = Ray::new_without_move(vi(0, 0, 0), vi(0, 0, -1));
    assert_eq!(ray_color(&r, Color(vi(0, 0, 0)), &world, 50), glow);
}

#[test]
fn one_bounce_scene_darker_than_sky() {
    // One diffuse sphere plus a huge ground sphere, rendered at depth
    // one with a ray aimed at the small sphere's apex: strictly darker
    // than the sky on every channel.
    let mut world = HittableList::new();
    world.add(Hittable::Sphere(Sphere {
        center: vi(0, 0, -1),
        radius: Fx::from_bits(32768),
        material: gray(),
    }));
    world.add(Hittable::Sphere(Sphere {
        center: Vec3::new(Fx::from_int(0), Fx::from_bits(-6586368), Fx::from_int(-1)),
        radius: Fx::from_int(100),
        material: gray(),
    }));
    let sky = Color(vb(45875, 52429, 65536));
    let r = Ray::new_without_move(vi(0, 0, 0), vi(0, 0, -1));
    let shade = ray_color(&r, sky, &world, 1);
    assert!(shade.0.x.bits < sky.0.x.bits);
    assert!(shade.0.y.bits < sky.0.y.bits);
    assert!(shade.0.z.bits < sky.0.z.bits);
}

#[test]
fn unit_sphere_sampler_stays_inside() {
    for _ in 0..200 {
        let p = random_in_unit_sphere();
        assert!(p.length_squared().bits < FX_ONE);
    }
}

#[test]
fn moving_sphere_center_interpolates_endpoints() {
    let s = MovingSphere {
        center0: vi(1, 2, 3),
        center1: vi(5, 6, 7),
        time0: Fx::from_int(0),
        time1: Fx::from_int(1),
        radius: Fx::from_int(1),
        material: gray(),
    };
    assert_eq!(s.center(Fx::from_int(0)), vi(1, 2, 3));
    assert_eq!(s.center(Fx::from_int(1)), vi(5, 6, 7));
}

#[test]
fn translated_box_reorients_normal() {
    let b = BoxEntity::new(vi(0, 0, 0), vi(2, 2, 2), gray());
    let moved = Hittable::Translate(Translate {
        object: Box::new(Hittable::BoxEntity(b)),
        offset: vi(10, 0, 0),
    });
    let r = Ray::new_without_move(vi(11, 1, 5), vi(0, 0, -1));
    let rec = moved.hit(&r, Fx::from_bits(66), Fx::from_bits(i64::MAX)).unwrap();
    assert_eq!(rec.t, Fx::from_int(3));
    assert!(r.direction.dot(rec.normal).bits <= 0);
}

#[test]
fn rotated_box_keeps_a_bounding_box() {
    let b = BoxEntity::new(vi(0, 0, 0), vi(2, 2, 2), gray());
    let turned = RotateY::new(Box::new(Hittable::BoxEntity(b)), Fx::from_int(45));
    let bbox = turned.bbox.unwrap();
    assert!(bbox.min.x.bits <= 0 && bbox.max.x.bits >= 2 * FX_ONE);
}

#[test]
fn metal_roughness_clamped_into_unit_interval() {
    let c = Color(vb(45875, 45875, 45875));
    assert_eq!(Metal::new(c, Fx::from_int(-1)).fuzzy, Fx::from_int(0));
    assert_eq!(Metal::new(c, Fx::from_int(2)).fuzzy, Fx::from_int(1));
    assert_eq!(Metal::new(c, Fx::from_bits(13107)).fuzzy, Fx::from_bits(13107));
}

#[test]
fn polished_metal_mirrors_exactly() {
    let albedo = Color(vb(45875, 39322, 32768));
    let met = Material::Metal(Metal::new(albedo, Fx::from_int(0)));
    let s = Sphere { center: vi(0, 0, 0), radius: Fx::from_int(1), material: gray() };
    let r = Ray::new_without_move(vi(0, 0, 4), vi(0, 0, -1));
    let rec = s.hit(&r, Fx::from_bits(66), Fx::from_bits(i64::MAX)).unwrap();
    let (scattered, att) = met.scatter(&r, &rec).unwrap();
    assert_eq!(att, albedo);
    assert_eq!(scattered.direction, reflect(&r.direction.normalize(), &rec.normal));
    assert_eq!(scattered.direction, vi(0, 0, 1));
}

#[test]
fn fresh_noise_field_tables_are_permutations() {
    let field = Perlin::new();
    let expected: Vec<u8> = (0u16..256).map(|v| v as u8).collect();
    for table in [&field.perm_x, &field.perm_y, &field.perm_z] {
        let mut sorted = table.clone();
        sorted.sort();
        assert_eq!(sorted, expected);
    }
}
