use image_processors::encoder_processor::{
    align_up, center_crop_padding, checked_ratio, perceiver_crop_size, scaled_shortest_edge, stage_source_channel,
    validate_color_clusters, PresetProcessorError,
};
use image_processors::errors::TransformError;
use image_processors::floatbits::{f32_bits_from_f64_bits, f32_bits_from_i64, f32_bits_from_u64, f64_bits_from_i64, f64_bits_from_u64};
use image_processors::geometry::ImageSize;
use image_processors::hf_config::{checked_hf_factor, parse_hf_resample, route_processor_type, ProcessorConfigError, ProcessorFamily};
use image_processors::json::{json_number, JsonNumber, JsonShallow};
use image_processors::marigold::Padding;
use image_processors::settings::ResizeFilter;

struct Lcg(u64);

impl Lcg {
    fn next(&mut self) -> u64 {
        self.0 = self.0.wrapping_mul(6364136223846793005).wrapping_add(1442695040888963407);
        self.0
    }
}

fn check_f64_to_f32(bits: u64) {
    let value = f64::from_bits(bits);
    let expected = value as f32;
    let actual = f32::from_bits(f32_bits_from_f64_bits(bits));
    if expected.is_nan() {
        assert!(actual.is_nan(), "{bits:#x}");
        assert_eq!(actual.is_sign_negative(), expected.is_sign_negative(), "{bits:#x}");
    } else {
        assert_eq!(actual.to_bits(), expected.to_bits(), "{bits:#x}");
    }
}

#[test]
fn f64_to_f32_rounding_matches_the_hardware_conversion() {
    let special = [
        0.0f64,
        -0.0,
        1.0,
        -1.0,
        0.1,
        1.0 / 255.0,
        1.0 / 127.5,
        0.481_454_66,
        f64::from(f32::MAX),
        f64::from(f32::MAX) * 1.000_000_1,
        1.0e39,
        -1.0e39,
        f64::from(f32::MIN_POSITIVE),
        f64::from(f32::MIN_POSITIVE) / 3.0,
        1.0e-46,
        1.4e-45,
        7.0e-46,
        f64::INFINITY,
        f64::NEG_INFINITY,
        f64::NAN,
        f64::MIN_POSITIVE,
        1.0 + f64::EPSILON,
    ];
    for value in special {
        check_f64_to_f32(value.to_bits());
    }
    // Ties between two binary32 neighbours round to the even one.
    check_f64_to_f32(f64::from_bits(0x3FF0_0000_1000_0000).to_bits());
    check_f64_to_f32(f64::from_bits(0x3FF0_0000_3000_0000).to_bits());
    let mut rng = Lcg(17);
    for _ in 0..20_000 {
        check_f64_to_f32(rng.next());
    }
}

#[test]
fn integer_to_float_conversions_match_casts() {
    let mut rng = Lcg(5);
    let mut samples: Vec<u64> = vec![0, 1, 2, 3, 16_777_216, 16_777_217, 16_777_219, u64::MAX, u64::MAX - 1, 1 << 63, (1 << 53) + 1];
    for _ in 0..20_000 {
        let value = rng.next();
        samples.push(value);
        samples.push(value >> (value % 64));
    }
    for value in samples {
        assert_eq!(f32_bits_from_u64(value), (value as f32).to_bits(), "{value}");
        assert_eq!(f64_bits_from_u64(value), (value as f64).to_bits(), "{value}");
        let signed = value as i64;
        assert_eq!(f32_bits_from_i64(signed), (signed as f32).to_bits(), "{signed}");
        assert_eq!(f64_bits_from_i64(signed), (signed as f64).to_bits(), "{signed}");
    }
    assert_eq!(f32_bits_from_i64(i64::MIN), (i64::MIN as f32).to_bits());
    assert_eq!(f64_bits_from_i64(i64::MIN), (i64::MIN as f64).to_bits());
}

#[test]
fn json_numbers_keep_their_integer_or_float_kind() {
    assert_eq!(json_number("42"), Some(JsonNumber::PosInt(42)));
    assert_eq!(json_number("-7"), Some(JsonNumber::NegInt(-7)));
    assert_eq!(json_number("0.5"), Some(JsonNumber::Float(0.5f64.to_bits())));
    assert_eq!(json_number("1e3"), Some(JsonNumber::Float(1000.0f64.to_bits())));
    assert_eq!(json_number("abc"), None);
}

#[test]
fn hf_resample_accepts_pil_codes_and_case_insensitive_names() {
    let code = |n: u64| JsonShallow::Number(n.to_string());
    assert_eq!(parse_hf_resample(&code(0), ResizeFilter::Bicubic), ResizeFilter::Nearest);
    assert_eq!(parse_hf_resample(&code(2), ResizeFilter::Bicubic), ResizeFilter::Bilinear);
    assert_eq!(parse_hf_resample(&code(3), ResizeFilter::Nearest), ResizeFilter::Bicubic);
    assert_eq!(parse_hf_resample(&code(1), ResizeFilter::Nearest), ResizeFilter::Lanczos);
    assert_eq!(parse_hf_resample(&code(9), ResizeFilter::Bilinear), ResizeFilter::Bilinear);
    let name = |s: &str| JsonShallow::Text(s.to_string());
    assert_eq!(parse_hf_resample(&name("BiLinear"), ResizeFilter::Nearest), ResizeFilter::Bilinear);
    assert_eq!(parse_hf_resample(&name("LANCZOS"), ResizeFilter::Nearest), ResizeFilter::Lanczos);
    assert_eq!(parse_hf_resample(&name("unknown"), ResizeFilter::Bicubic), ResizeFilter::Bicubic);
    assert_eq!(parse_hf_resample(&JsonShallow::Null, ResizeFilter::Lanczos), ResizeFilter::Lanczos);
}

#[test]
fn hf_processor_types_route_to_families() {
    assert_eq!(route_processor_type("CLIPImageProcessor"), Some(ProcessorFamily::Clip));
    assert_eq!(route_processor_type("NotAProcessor"), None);
    assert_eq!(checked_hf_factor(14, 2, "patch_size").unwrap(), 28);
    assert!(matches!(
        checked_hf_factor(usize::MAX, 2, "patch_size"),
        Err(ProcessorConfigError::InvalidSize { field: "patch_size" })
    ));
}

#[test]
fn encoder_geometry_helpers_compute_exact_values() {
    assert_eq!(checked_ratio(224, 300, 256).unwrap(), 262);
    assert_eq!(checked_ratio(usize::MAX, 2, 2).unwrap(), usize::MAX);
    assert_eq!(checked_ratio(usize::MAX, 2, 1).unwrap_err(), TransformError::ImageSizeOverflow);
    assert_eq!(checked_ratio(1, 1, 0).unwrap_err(), TransformError::InvalidScaleFactor(0));
    assert_eq!(align_up(33, 32).unwrap(), 64);
    assert_eq!(align_up(64, 32).unwrap(), 64);
    assert_eq!(align_up(usize::MAX, 2).unwrap_err(), TransformError::ImageSizeOverflow);
    assert_eq!(scaled_shortest_edge(224, 256, 224).unwrap(), 256);
    assert_eq!(scaled_shortest_edge(224, 1, 0).unwrap_err(), TransformError::InvalidScaleFactor(0));
    assert_eq!(
        perceiver_crop_size(ImageSize { height: 300, width: 400 }, ImageSize { height: 224, width: 224 }, ImageSize { height: 256, width: 256 }).unwrap(),
        ImageSize { height: 262, width: 262 }
    );
    assert_eq!(center_crop_padding(ImageSize { height: 10, width: 10 }, ImageSize { height: 8, width: 8 }), None);
    assert_eq!(
        center_crop_padding(ImageSize { height: 5, width: 10 }, ImageSize { height: 8, width: 13 }),
        Some(Padding { top: 1, right: 2, bottom: 2, left: 1 })
    );
    assert_eq!(stage_source_channel(true, 0), 2);
    assert_eq!(stage_source_channel(true, 1), 1);
    assert_eq!(stage_source_channel(false, 0), 0);
}

#[test]
fn color_clusters_must_be_finite() {
    assert!(validate_color_clusters(&None).is_ok());
    assert!(validate_color_clusters(&Some(vec![[0, 0x3F80_0000, 0]])).is_ok());
    assert_eq!(
        validate_color_clusters(&Some(vec![[0, 0, 0], [0, f32::NAN.to_bits(), f32::INFINITY.to_bits()]])).unwrap_err(),
        PresetProcessorError::NonFiniteColorCluster { cluster: 1, component: 1 }
    );
}
