use ray_tracer::hit::{face_side, Side};
use ray_tracer::material::MaterialKind;

#[test]
fn side_not_swaps_the_sides() {
    assert_eq!(Side::Outside.not(), Side::Inside);
    assert_eq!(Side::Inside.not(), Side::Outside);
}

#[test]
fn side_not_twice_is_identity() {
    assert_eq!(Side::Outside.not().not(), Side::Outside);
    assert_eq!(Side::Inside.not().not(), Side::Inside);
}

#[test]
fn face_side_tags_a_ray_along_the_normal_as_inside() {
    assert_eq!(face_side(true), Side::Inside);
}

#[test]
fn face_side_tags_a_ray_against_the_normal_as_outside() {
    assert_eq!(face_side(false), Side::Outside);
}

#[test]
fn only_a_diffuse_light_is_terminal() {
    assert!(MaterialKind::Lambertian.scatters());
    assert!(MaterialKind::Metal.scatters());
    assert!(MaterialKind::Dielectric.scatters());
    assert!(MaterialKind::Isotropic.scatters());
    assert!(!MaterialKind::DiffuseLight.scatters());
}

#[test]
fn only_a_diffuse_light_emits() {
    assert!(MaterialKind::DiffuseLight.emits());
    assert!(!MaterialKind::Lambertian.emits());
    assert!(!MaterialKind::Metal.emits());
    assert!(!MaterialKind::Dielectric.emits());
    assert!(!MaterialKind::Isotropic.emits());
}
