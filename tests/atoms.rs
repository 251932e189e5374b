use atomecs_demos::atoms::{
    emissive_intensity, get_color, material_color, update_emissive_color, EmissiveColorConfig,
    MaterialColorConfig, Rgba,
};

fn blue() -> Rgba {
    Rgba::rgb(0, 0, 1_000_000)
}

fn green() -> Rgba {
    Rgba::rgb(0, 1_000_000, 0)
}

fn red() -> Rgba {
    Rgba::rgb(1_000_000, 0, 0)
}

#[test]
fn color_buckets_at_boundaries() {
    assert_eq!(get_color(479_000), blue());
    assert_eq!(get_color(479_999), blue());
    assert_eq!(get_color(480_000), green());
    assert_eq!(get_color(549_000), green());
    assert_eq!(get_color(549_999), green());
    assert_eq!(get_color(550_000), red());
}

#[test]
fn color_of_common_transitions() {
    // rubidium 780 nm, strontium 461 nm, strontium 689 nm, sodium 589 nm
    assert_eq!(get_color(780_241), red());
    assert_eq!(get_color(460_862), blue());
    assert_eq!(get_color(689_449), red());
    assert_eq!(get_color(0), blue());
    assert_eq!(get_color(u64::MAX), red());
}

#[test]
fn rgb_is_opaque() {
    let c = Rgba::rgb(1, 2, 3);
    assert_eq!(c, Rgba { red: 1, green: 2, blue: 3, alpha: 1_000_000 });
}

#[test]
fn scaling_keeps_alpha() {
    let c = Rgba { red: 1_000_000, green: 500_000, blue: 3, alpha: 250_000 };
    assert_eq!(c.scaled(2_000_000), Rgba { red: 2_000_000, green: 1_000_000, blue: 6, alpha: 250_000 });
    assert_eq!(c.scaled(500_000), Rgba { red: 500_000, green: 250_000, blue: 1, alpha: 250_000 });
    assert_eq!(c.scaled(0), Rgba { red: 0, green: 0, blue: 0, alpha: 250_000 });
}

#[test]
fn scaling_saturates() {
    let c = Rgba { red: u64::MAX, green: 0, blue: 1, alpha: 7 };
    let s = c.scaled(u32::MAX);
    assert_eq!(s, Rgba { red: u64::MAX, green: 0, blue: 4294, alpha: 7 });
}

#[test]
fn with_alpha_replaces_alpha_only() {
    assert_eq!(red().with_alpha(5), Rgba { red: 1_000_000, green: 0, blue: 0, alpha: 5 });
}

#[test]
fn default_configs_are_unit() {
    assert_eq!(MaterialColorConfig::default().factor, 1_000_000);
    assert_eq!(EmissiveColorConfig::default().factor, 1_000_000);
}

#[test]
fn material_color_scales_bucket() {
    let cfg = MaterialColorConfig { factor: 250_000 };
    assert_eq!(material_color(500_000, &cfg), Rgba { red: 0, green: 250_000, blue: 0, alpha: 1_000_000 });
    assert_eq!(material_color(780_000, &MaterialColorConfig::default()), red());
}

#[test]
fn no_scattering_no_glow() {
    assert_eq!(emissive_intensity(0, 38_000_000, 1_000_000, 1_000_000), 0);
    assert_eq!(emissive_intensity(0, 1, 1, u32::MAX), 0);
}

#[test]
fn heavy_scattering_saturates_glow() {
    // expected maximum: 38e6 / 2 * 1e-6 s = 19 photons; 1000 photons scattered
    assert_eq!(emissive_intensity(1_000_000_000, 38_000_000, 1_000_000, 1_000_000), 1_000_000);
    assert_eq!(emissive_intensity(u64::MAX, 1, 1, u32::MAX), 1_000_000);
    // the largest inputs: far fewer photons than the expected maximum
    assert_eq!(emissive_intensity(u64::MAX, u64::MAX, u64::MAX, 1_000_000), 0);
}

#[test]
fn glow_is_proportional_below_maximum() {
    // 9.5 of an expected 19 photons
    assert_eq!(emissive_intensity(9_500_000, 38_000_000, 1_000_000, 1_000_000), 500_000);
    // the factor doubles it
    assert_eq!(emissive_intensity(4_750_000, 38_000_000, 1_000_000, 2_000_000), 500_000);
    // rounded down: 1 of 19 photons
    assert_eq!(emissive_intensity(1_000_000, 38_000_000, 1_000_000, 1_000_000), 52_631);
}

#[test]
fn zero_expected_maximum_gives_no_glow() {
    assert_eq!(emissive_intensity(1_000_000, 0, 1_000_000, 1_000_000), 0);
    assert_eq!(emissive_intensity(1_000_000, 38_000_000, 0, 1_000_000), 0);
}

#[test]
fn zero_factor_gives_no_glow() {
    assert_eq!(emissive_intensity(1_000_000_000, 38_000_000, 1_000_000, 0), 0);
}

#[test]
fn emissive_update_per_atom() {
    let cfg = EmissiveColorConfig { factor: 1_000_000 };
    let totals = vec![0, 9_500_000, 100_000_000];
    assert_eq!(update_emissive_color(&totals, 38_000_000, 1_000_000, &cfg), vec![0, 500_000, 1_000_000]);
    assert_eq!(update_emissive_color(&Vec::new(), 38_000_000, 1_000_000, &cfg), Vec::<u64>::new());
}
