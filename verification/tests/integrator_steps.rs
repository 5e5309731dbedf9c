use ray_tracer::integrator::{radiance_step, source_scanline, RadianceStep};

#[test]
fn depth_exhaustion_cuts_the_path_off() {
    assert_eq!(radiance_step(0, true, true), RadianceStep::Cutoff);
    assert_eq!(radiance_step(0, false, false), RadianceStep::Cutoff);
}

#[test]
fn a_miss_yields_the_background() {
    assert_eq!(radiance_step(1, false, false), RadianceStep::Background);
    assert_eq!(radiance_step(50, false, true), RadianceStep::Background);
}

#[test]
fn a_terminal_hit_emits_alone() {
    assert_eq!(radiance_step(1, true, false), RadianceStep::Emit);
    assert_eq!(radiance_step(50, true, false), RadianceStep::Emit);
}

#[test]
fn a_scattering_hit_emits_and_recurses() {
    assert_eq!(radiance_step(1, true, true), RadianceStep::EmitAndScatter);
    assert_eq!(radiance_step(50, true, true), RadianceStep::EmitAndScatter);
}

#[test]
fn the_top_output_row_samples_the_highest_scanline() {
    assert_eq!(source_scanline(600, 0), 599);
    assert_eq!(source_scanline(600, 599), 0);
    assert_eq!(source_scanline(1, 0), 0);
    assert_eq!(source_scanline(480, 100), 379);
}
