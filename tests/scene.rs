use raymarch::color::{black, Rgb};
use raymarch::march::{after_probe, MarchStep};
use raymarch::material::{validate_materials, Material, SceneError};
use raymarch::shading::{background, needs_reflection, shade, MarchOutcome};

fn red(reflectivity: u32) -> Material {
    Material::new(Rgb::new(255, 0, 0), reflectivity).unwrap()
}

#[test]
fn material_rejects_reflectivity_above_one() {
    assert!(Material::new(Rgb::new(1, 2, 3), 1001).is_none());
    assert_eq!(
        Material::new(Rgb::new(1, 2, 3), 1000),
        Some(Material { color: Rgb::new(1, 2, 3), reflectivity: 1000 })
    );
}

#[test]
fn empty_scene_is_rejected() {
    assert_eq!(validate_materials(&[]), Err(SceneError::Empty));
}

#[test]
fn first_bad_reflectivity_is_reported() {
    let bad = Material { color: Rgb::new(0, 0, 0), reflectivity: 1500 };
    let mats = [red(500), bad, bad];
    assert_eq!(validate_materials(&mats), Err(SceneError::ReflectivityOutOfRange(1)));
    assert_eq!(validate_materials(&[red(0), red(1000)]), Ok(()));
}

#[test]
fn miss_gives_background_grey() {
    let s = shade(&[red(1000)], &[MarchOutcome::Miss], 2);
    assert_eq!(s.color, Rgb::new(50, 50, 50));
    assert_eq!(s.color, background());
    assert_eq!(s.reflectivity, 0);
}

#[test]
fn lit_hit_without_bounces_is_surface_color() {
    let trace = [MarchOutcome::Hit { surface: 0, lit: true }, MarchOutcome::Miss];
    let s = shade(&[red(1000)], &trace, 0);
    assert_eq!(s.color, Rgb::new(255, 0, 0));
    assert_eq!(s.reflectivity, 1000);
}

#[test]
fn shadowed_hit_is_black_and_keeps_reflectivity() {
    let trace = [MarchOutcome::Hit { surface: 0, lit: false }];
    let s = shade(&[red(900)], &trace, 0);
    assert_eq!(s.color, black());
    assert_eq!(s.reflectivity, 900);
}

#[test]
fn zero_bounces_ignore_the_reflected_surface() {
    let mats = [red(900), Material::new(Rgb::new(0, 255, 0), 0).unwrap()];
    let trace = [
        MarchOutcome::Hit { surface: 0, lit: true },
        MarchOutcome::Hit { surface: 1, lit: true },
    ];
    assert_eq!(shade(&mats, &trace, 0).color, Rgb::new(255, 0, 0));
    // with one bounce: 0 * 0.9 + 255 * 0.1 = 25.5 for red, 255 * 0.9 = 229.5 for green
    assert_eq!(shade(&mats, &trace, 1).color, Rgb::new(25, 229, 0));
}

#[test]
fn full_mirror_shows_reflected_background() {
    let trace = [MarchOutcome::Hit { surface: 0, lit: true }, MarchOutcome::Miss];
    assert_eq!(shade(&[red(1000)], &trace, 2).color, background());
}

#[test]
fn mirror_sphere_seen_from_inside_turns_black() {
    // a fully reflective red sphere whose mirrored ray lands inside it, in shadow
    let trace = [
        MarchOutcome::Hit { surface: 0, lit: true },
        MarchOutcome::Hit { surface: 0, lit: false },
        MarchOutcome::Hit { surface: 0, lit: false },
    ];
    let s = shade(&[red(1000)], &trace, 2);
    assert_eq!(s.color, black());
    assert_ne!(s.color, background());
}

#[test]
fn reflection_is_requested_while_bounces_remain() {
    let hit = MarchOutcome::Hit { surface: 0, lit: true };
    assert!(!needs_reflection(&[], 2));
    assert!(needs_reflection(&[hit], 2));
    assert!(needs_reflection(&[hit, hit], 2));
    assert!(!needs_reflection(&[hit, hit, hit], 2));
    assert!(!needs_reflection(&[hit, MarchOutcome::Miss], 2));
    assert!(!needs_reflection(&[hit], 0));
}

#[test]
fn unconverged_march_misses_after_exact_budget() {
    let limit: u32 = 25;
    let mut probes: u32 = 0;
    loop {
        let step = after_probe(probes, limit, false);
        probes += 1;
        match step {
            MarchStep::Advance => continue,
            MarchStep::Exhausted => break,
            MarchStep::Converged => panic!("no probe was within tolerance"),
        }
    }
    assert_eq!(probes, limit);
}

#[test]
fn converged_probe_stops_the_march() {
    assert_eq!(after_probe(0, 25, true), MarchStep::Converged);
    assert_eq!(after_probe(24, 25, true), MarchStep::Converged);
    assert_eq!(after_probe(3, 25, false), MarchStep::Advance);
    assert_eq!(after_probe(0, 1, false), MarchStep::Exhausted);
}
