use gpu_image4::params::{encode, resolve_param, ParameterBlock, PARAM_BLOCK_LEN, PARAM_UNIT};
use gpu_image4::FilterType;

const SCALE_2: u32 = 2_000_000;

fn slots(block: &ParameterBlock) -> Vec<i64> {
    block.as_slice().to_vec()
}

fn padded(lead: &[i64]) -> Vec<i64> {
    let mut v = lead.to_vec();
    v.resize(PARAM_BLOCK_LEN, 0);
    v
}

#[test]
fn ascii_default_with_scale_two_on_square_image() {
    let block = encode(FilterType::AsciiArt, 0, (100, 100), SCALE_2, false);
    assert_eq!(slots(&block), padded(&[160_000, 160_000, 16_000_000, 8_000_000]));
}

#[test]
fn ascii_width_is_clamped_to_its_range() {
    assert_eq!(resolve_param(FilterType::AsciiArt, 4 * PARAM_UNIT, SCALE_2), 8 * PARAM_UNIT);
    assert_eq!(resolve_param(FilterType::AsciiArt, 100 * PARAM_UNIT, SCALE_2), 64 * PARAM_UNIT);
    assert_eq!(resolve_param(FilterType::AsciiArt, -3 * PARAM_UNIT, SCALE_2), 8 * PARAM_UNIT);
    assert_eq!(resolve_param(FilterType::AsciiArt, 20 * PARAM_UNIT, SCALE_2), 20 * PARAM_UNIT);
    let block = encode(FilterType::AsciiArt, 1_000 * PARAM_UNIT, (640, 480), SCALE_2, false);
    assert_eq!(block.as_slice()[2], 64 * PARAM_UNIT);
}

#[test]
fn cross_hatch_density_is_clamped_to_its_range() {
    assert_eq!(resolve_param(FilterType::CrossHatch, 5 * PARAM_UNIT, SCALE_2), 10 * PARAM_UNIT);
    assert_eq!(resolve_param(FilterType::CrossHatch, 65 * PARAM_UNIT, SCALE_2), 64 * PARAM_UNIT);
    assert_eq!(resolve_param(FilterType::CrossHatch, 1, SCALE_2), 10 * PARAM_UNIT);
}

#[test]
fn edge_threshold_is_clamped_to_its_range() {
    assert_eq!(resolve_param(FilterType::EdgeDetection, 500_000, SCALE_2), 330_000);
    assert_eq!(resolve_param(FilterType::EdgeDetection, 10_000, SCALE_2), 50_000);
    assert_eq!(resolve_param(FilterType::EdgeDetection, 200_000, SCALE_2), 200_000);
}

#[test]
fn defaults_scale_linearly_with_the_display() {
    for scale in [1_000_000u32, 1_500_000, 2_000_000, 3_000_000] {
        assert_eq!(resolve_param(FilterType::AsciiArt, 0, scale), 8 * scale as i64);
        assert_eq!(resolve_param(FilterType::CrossHatch, 0, scale), 10 * scale as i64);
    }
    let one = resolve_param(FilterType::AsciiArt, 0, 1_000_000);
    let three = resolve_param(FilterType::AsciiArt, 0, 3_000_000);
    assert_eq!(three, 3 * one);
}

#[test]
fn edge_default_scales_with_the_display() {
    assert_eq!(resolve_param(FilterType::EdgeDetection, 0, 1_000_000), 50_000);
    assert_eq!(resolve_param(FilterType::EdgeDetection, 0, 2_000_000), 100_000);
    assert_eq!(resolve_param(FilterType::EdgeDetection, 0, 3_000_000), 150_000);
    // 0.05 x 1.333333 = 0.06666665, rounded down to a millionth.
    assert_eq!(resolve_param(FilterType::EdgeDetection, 0, 1_333_333), 66_666);
}

#[test]
fn cross_hatch_block() {
    let block = encode(FilterType::CrossHatch, 0, (640, 480), SCALE_2, true);
    assert_eq!(
        slots(&block),
        padded(&[20_000_000, 10_000_000, 1_600_000, 800_000, 600_000, 300_000, 150_000, PARAM_UNIT])
    );
    let clear = encode(FilterType::CrossHatch, 0, (640, 480), SCALE_2, false);
    assert_eq!(clear.as_slice()[7], 0);
}

#[test]
fn edge_detection_block() {
    let block = encode(FilterType::EdgeDetection, 0, (640, 480), SCALE_2, true);
    assert_eq!(slots(&block), padded(&[100_000, PARAM_UNIT]));
    let tuned = encode(FilterType::EdgeDetection, 120_000, (640, 480), SCALE_2, false);
    assert_eq!(slots(&tuned), padded(&[120_000, 0]));
}

#[test]
fn original_block_is_all_zero() {
    let block = encode(FilterType::Original, 7 * PARAM_UNIT, (640, 480), SCALE_2, true);
    assert_eq!(slots(&block), vec![0; PARAM_BLOCK_LEN]);
}

#[test]
fn ascii_block_on_unknown_image_size() {
    let block = encode(FilterType::AsciiArt, 0, (0, 0), SCALE_2, false);
    assert_eq!(slots(&block), padded(&[0, 0, 16_000_000, 8_000_000]));
}

#[test]
fn ascii_block_on_wide_image() {
    let block = encode(FilterType::AsciiArt, 12 * PARAM_UNIT, (640, 480), SCALE_2, false);
    assert_eq!(slots(&block), padded(&[18_750, 25_000, 12_000_000, 6_000_000]));
}

#[test]
fn zeroed_block() {
    let block = ParameterBlock::zeroed();
    assert_eq!(slots(&block), vec![0; PARAM_BLOCK_LEN]);
}
