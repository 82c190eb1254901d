use raytrace::fixed::Fx;
use raytrace::vec3::Vec3;
use raytrace::color::Color;

fn vi(x: i64, y: i64, z: i64) -> Vec3 {
    Vec3::new(Fx::from_int(x), Fx::from_int(y), Fx::from_int(z))
}

fn origin() -> Vec3 {
    vi(0, 0, 0)
}

#[test]
fn test_new() {
    let v1 = vi(0, 0, 0);
    let v2 = vi(0, 0, 0);
    assert_eq!(v1, v1);
    assert_eq!(v1, v2);
}

#[test]
fn vec3_test_display() {
    assert_eq!(format!("{}", origin().display_string()), "0 0 0");
}

#[test]
fn color_test_display() {
    assert_eq!(format!("{}", Color(vi(1, 1, 1)).display_string()), "255 255 255\n");
}

#[test]
fn test_add_assign() {
    let mut v1 = vi(0, 0, 0);
    v1.add_assign(vi(1, 0, 0));
    assert_eq!(vi(1, 0, 0), v1);
}

#[test]
fn test_scalar_mul_assign() {
    let mut v1 = vi(2, 0, 0);
    v1.mul_assign(Fx::from_int(2));
    assert_eq!(vi(4, 0, 0), v1);
}

#[test]
fn test_scalar_div_assign() {
    let mut v1 = vi(2, 0, 0);
    v1.div_assign(Fx::from_int(2));
    assert_eq!(vi(1, 0, 0), v1);
}

#[test]
fn test_negate() {
    assert_eq!(vi(-1, -1, -1), vi(1, 1, 1).neg());

    assert_eq!(vi(1, 1, 1), vi(-1, -1, -1).neg());

    assert_eq!(vi(0, 0, 0), vi(0, 0, 0).neg());
}

#[test]
fn test_add() {
    assert_eq!(vi(2, 3, 4), vi(2, 3, 4).add(origin()));
    assert_eq!(vi(4, 6, 8), vi(2, 3, 4).add(vi(2, 3, 4)));

    let v1 = vi(2, 3, 4);
    assert_eq!(vi(4, 6, 8), v1.add(v1));
}

#[test]
fn test_mul() {
    assert_eq!(origin(), origin().mul(vi(1, 2, 3)));
}

#[test]
fn test_scalar_mul() {
    assert_eq!(origin(), origin().scale(Fx::from_int(5)));
    assert_eq!(origin(), origin().scale(Fx::from_int(5)));

    assert_eq!(vi(5, 5, 5), vi(1, 1, 1).scale(Fx::from_int(5)));
    assert_eq!(vi(5, 5, 5), vi(1, 1, 1).scale(Fx::from_int(5)));
}

#[test]
fn test_scalar_div() {
    assert_eq!(origin(), origin().div_scalar(Fx::from_int(3)));

    let v1 = vi(1, 1, 1);
    let half = Fx::from_bits(32768);
    assert_eq!(Vec3::new(half, half, half), v1.div_scalar(Fx::from_int(2)));
}

#[test]
fn test_length_squared() {
    assert_eq!(Fx::from_int(0), origin().length_squared());

    assert_eq!(Fx::from_int(1), vi(1, 0, 0).length_squared());
}

#[test]
fn test_length() {
    assert_eq!(Fx::from_int(0), origin().length());

    assert_eq!(Fx::from_int(1), vi(1, 0, 0).length());
    assert_eq!(vi(1, 0, 0).length_squared().sqrt(), vi(1, 0, 0).length());
}

#[test]
fn test_dot() {
    assert_eq!(Fx::from_int(0), origin().dot(origin()));

    assert_eq!(Fx::from_int(3), vi(1, 1, 1).dot(vi(1, 1, 1)));
}

#[test]
fn test_cross() {
    assert_eq!(origin(), origin().cross(origin()));

    assert_eq!(vi(0, 0, 1), vi(1, 0, 0).cross(vi(0, 1, 0)));
}

#[test]
fn test_normalize() {
    assert_eq!(vi(1, 0, 0), vi(1, 0, 0).normalize())
}
