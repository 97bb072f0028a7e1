use vstd::prelude::*;

use crate::FilterType;
use vstd::arithmetic::div_mod::lemma_fundamental_div_mod;

verus! {

/// Parameter values are fixed-point numbers counted in millionths:
/// `PARAM_UNIT` stands for 1.
pub const PARAM_UNIT: i64 = 1_000_000;

/// Number of slots in the shared parameter block.
pub const PARAM_BLOCK_LEN: usize = 32;

/// The range that a filter's primary parameter is clamped into, in
/// millionths: `(low, high)`. The original filter has no parameter.
pub open spec fn valid_range(kind: FilterType) -> (int, int) {
    match kind {
        FilterType::Original => (0, 0),
        FilterType::AsciiArt => (8 * PARAM_UNIT, 64 * PARAM_UNIT),
        FilterType::CrossHatch => (10 * PARAM_UNIT, 64 * PARAM_UNIT),
        FilterType::EdgeDetection => (50_000, 330_000),
    }
}

pub open spec fn clamp_spec(v: int, low: int, high: int) -> int {
    if v < low {
        low
    } else if v > high {
        high
    } else {
        v
    }
}

/// The base of the default that a raw zero selects, in millionths per unit
/// of display scale: 8 pixels per ASCII cell, a hatch density of 10 and a
/// noise threshold of 0.05. The original filter has no parameter.
pub open spec fn default_base(kind: FilterType) -> int {
    match kind {
        FilterType::Original => 0,
        FilterType::AsciiArt => 8 * PARAM_UNIT,
        FilterType::CrossHatch => 10 * PARAM_UNIT,
        FilterType::EdgeDetection => 50_000,
    }
}

/// The default parameter on a display of scale factor `scale_factor`
/// (millionths): the filter's base times the scale factor, rounded down to a
/// millionth (only the edge threshold ever needs the rounding).
pub open spec fn default_param(kind: FilterType, scale_factor: int) -> int {
    match kind {
        FilterType::Original => 0,
        FilterType::AsciiArt => 8 * scale_factor,
        FilterType::CrossHatch => 10 * scale_factor,
        FilterType::EdgeDetection => scale_factor / 20,
    }
}

/// The primary parameter that a filter runs with. A raw value of zero asks
/// for the filter's default, which scales with the display; any other raw
/// value is clamped into the filter's range.
pub open spec fn resolved_param(kind: FilterType, raw: int, scale_factor: int) -> int {
    match kind {
        FilterType::Original => 0,
        _ => if raw == 0 {
            default_param(kind, scale_factor)
        } else {
            clamp_spec(raw, valid_range(kind).0, valid_range(kind).1)
        },
    }
}

/// The slot of the block that holds the primary parameter.
pub open spec fn primary_slot(kind: FilterType) -> int {
    match kind {
        FilterType::AsciiArt => 2,
        _ => 0,
    }
}

/// `v` spread over `d` pixels, in the unit of `v`; zero while the image size
/// is not known yet.
pub open spec fn per_pixel(v: int, d: int) -> int {
    if d == 0 {
        0
    } else {
        v / d
    }
}

/// The filter-specific leading values of the parameter block, in millionths.
/// - ASCII art: cell size in normalised U and V, cell width in pixels, and
///   half of it.
/// - Cross hatch: density, half of it, 8 % of it, four hatch tone levels and
///   the opaque-background flag.
/// - Edge detection: noise threshold and the opaque-background flag.
/// - Original: a single zero.
pub open spec fn param_values(
    kind: FilterType,
    raw: int,
    img_width: int,
    img_height: int,
    scale_factor: int,
    opaque: bool,
) -> Seq<int> {
    let p = resolved_param(kind, raw, scale_factor);
    let flag = if opaque {
        PARAM_UNIT as int
    } else {
        0
    };
    match kind {
        FilterType::Original => seq![0],
        FilterType::AsciiArt => seq![per_pixel(p, img_width), per_pixel(p, img_height), p, p / 2],
        FilterType::CrossHatch => seq![
            p,
            p / 2,
            p * 2 / 25,
            800_000,
            600_000,
            300_000,
            150_000,
            flag,
        ],
        FilterType::EdgeDetection => seq![p, flag],
    }
}

/// Slot `i` of the full block: the leading values, then zeros.
pub open spec fn block_slot(values: Seq<int>, i: int) -> int {
    if i < values.len() {
        values[i]
    } else {
        0
    }
}

/// `block` is the full block whose leading slots are `values`.
pub open spec fn encodes(block: Seq<i64>, values: Seq<int>) -> bool {
    &&& block.len() == PARAM_BLOCK_LEN
    &&& forall|i: int| 0 <= i < PARAM_BLOCK_LEN ==> block[i] as int == block_slot(values, i)
}

/// The shared numeric block handed to every filter program. It always has
/// `PARAM_BLOCK_LEN` slots and is written whole.
pub struct ParameterBlock {
    values: Vec<i64>,
}

impl View for ParameterBlock {
    type V = Seq<i64>;

    closed spec fn view(&self) -> Seq<i64> {
        self.values@
    }
}

impl ParameterBlock {
    /// A block of zeros.
    pub fn zeroed() -> (r: Self)
        ensures
            r@.len() == PARAM_BLOCK_LEN,
            forall|i: int| 0 <= i < PARAM_BLOCK_LEN ==> r@[i] == 0,
    {
        let mut values: Vec<i64> = Vec::new();
        while values.len() < PARAM_BLOCK_LEN
            invariant
                values@.len() <= PARAM_BLOCK_LEN,
                forall|i: int| 0 <= i < values@.len() ==> values@[i] == 0,
            decreases PARAM_BLOCK_LEN - values@.len(),
        {
            values.push(0);
        }
        ParameterBlock { values }
    }

    /// The slots, in order.
    pub fn as_slice(&self) -> (r: &[i64])
        ensures
            r@ == self@,
    {
        self.values.as_slice()
    }
}

fn clamp(v: i64, low: i64, high: i64) -> (r: i64)
    requires
        low <= high,
    ensures
        r == clamp_spec(v as int, low as int, high as int),
{
    if v < low {
        low
    } else if v > high {
        high
    } else {
        v
    }
}

/// The primary parameter for `kind`, from the raw user value and the
/// display's scale factor (both in millionths).
pub fn resolve_param(kind: FilterType, raw: i64, scale_factor: u32) -> (r: i64)
    ensures
        r == resolved_param(kind, raw as int, scale_factor as int),
{
    match kind {
        FilterType::Original => 0,
        FilterType::AsciiArt => if raw == 0 {
            8 * scale_factor as i64
        } else {
            clamp(raw, 8 * PARAM_UNIT, 64 * PARAM_UNIT)
        },
        FilterType::CrossHatch => if raw == 0 {
            10 * scale_factor as i64
        } else {
            clamp(raw, 10 * PARAM_UNIT, 64 * PARAM_UNIT)
        },
        FilterType::EdgeDetection => if raw == 0 {
            (scale_factor / 20) as i64
        } else {
            clamp(raw, 50_000, 330_000)
        },
    }
}

fn per_pixel_exec(v: i64, d: u32) -> (r: i64)
    requires
        v >= 0,
    ensures
        r == per_pixel(v as int, d as int),
{
    if d == 0 {
        0
    } else {
        v / d as i64
    }
}

/// Encodes the parameter block for `kind`: the raw user value (zero for the
/// default), the image size in pixels, the display's scale factor and the
/// opaque-background flag. Nothing is carried over between calls.
pub fn encode(
    kind: FilterType,
    raw: i64,
    img_size: (u32, u32),
    scale_factor: u32,
    opaque: bool,
) -> (r: ParameterBlock)
    ensures
        encodes(
            r@,
            param_values(
                kind,
                raw as int,
                img_size.0 as int,
                img_size.1 as int,
                scale_factor as int,
                opaque,
            ),
        ),
{
    let p = resolve_param(kind, raw, scale_factor);
    let flag: i64 = if opaque {
        PARAM_UNIT
    } else {
        0
    };
    let mut values: Vec<i64> = match kind {
        FilterType::Original => vec![0],
        FilterType::AsciiArt => vec![
            per_pixel_exec(p, img_size.0),
            per_pixel_exec(p, img_size.1),
            p,
            p / 2,
        ],
        FilterType::CrossHatch => vec![
            p,
            p / 2,
            p * 2 / 25,
            800_000,
            600_000,
            300_000,
            150_000,
            flag,
        ],
        FilterType::EdgeDetection => vec![p, flag],
    };
    let ghost lead = param_values(
        kind,
        raw as int,
        img_size.0 as int,
        img_size.1 as int,
        scale_factor as int,
        opaque,
    );
    assert(values@.len() == lead.len());
    assert(forall|i: int| 0 <= i < lead.len() ==> values@[i] as int == lead[i]);
    while values.len() < PARAM_BLOCK_LEN
        invariant
            lead.len() <= values@.len() <= PARAM_BLOCK_LEN,
            forall|i: int| 0 <= i < values@.len() ==> values@[i] as int == block_slot(lead, i),
        decreases PARAM_BLOCK_LEN - values@.len(),
    {
        values.push(0);
    }
    ParameterBlock { values }
}

/// A raw value other than zero that lies outside a filter's range comes out
/// as the nearer bound of that range, in the primary slot of the block.
pub proof fn lemma_out_of_range_clamps(
    kind: FilterType,
    raw: int,
    img_width: int,
    img_height: int,
    scale_factor: int,
    opaque: bool,
)
    requires
        kind != FilterType::Original,
        raw != 0,
        raw < valid_range(kind).0 || raw > valid_range(kind).1,
    ensures
        param_values(kind, raw, img_width, img_height, scale_factor, opaque)[primary_slot(kind)]
            == if raw < valid_range(kind).0 {
            valid_range(kind).0
        } else {
            valid_range(kind).1
        },
{
}

/// Every raw value other than zero runs a filter with a primary parameter
/// inside that filter's range.
pub proof fn lemma_param_in_range(
    kind: FilterType,
    raw: int,
    img_width: int,
    img_height: int,
    scale_factor: int,
    opaque: bool,
)
    requires
        kind != FilterType::Original,
        raw != 0,
    ensures
        valid_range(kind).0 <= param_values(kind, raw, img_width, img_height, scale_factor, opaque)[primary_slot(kind)]
            <= valid_range(kind).1,
{
}

/// The default that a raw zero selects is the filter's base times the
/// display's scale factor, rounded down to a millionth, so it grows linearly
/// with the scale factor: the defaults for two scale factors add up to the
/// default for their sum, exactly where the base is a whole number of units
/// and up to one millionth of rounding otherwise.
pub proof fn lemma_default_scales_linearly(
    kind: FilterType,
    img_width: int,
    img_height: int,
    scale_factor: int,
    other_scale_factor: int,
    opaque: bool,
)
    requires
        scale_factor >= 0,
        other_scale_factor >= 0,
    ensures
        ({
            let d = param_values(kind, 0, img_width, img_height, scale_factor, opaque)[primary_slot(kind)];
            PARAM_UNIT * d <= default_base(kind) * scale_factor < PARAM_UNIT * (d + 1)
        }),
        ({
            let a = param_values(kind, 0, img_width, img_height, scale_factor, opaque)[primary_slot(kind)];
            let b = param_values(kind, 0, img_width, img_height, other_scale_factor, opaque)[primary_slot(kind)];
            let sum = param_values(kind, 0, img_width, img_height, scale_factor + other_scale_factor, opaque)[primary_slot(kind)];
            &&& a + b <= sum <= a + b + 1
            &&& default_base(kind) % (PARAM_UNIT as int) == 0 ==> sum == a + b
        }),
{
    assert(PARAM_UNIT == 1_000_000);
    assert(param_values(kind, 0, img_width, img_height, scale_factor, opaque)[primary_slot(kind)]
        == default_param(kind, scale_factor));
    assert(param_values(kind, 0, img_width, img_height, other_scale_factor, opaque)[primary_slot(kind)]
        == default_param(kind, other_scale_factor));
    assert(param_values(kind, 0, img_width, img_height, scale_factor + other_scale_factor, opaque)[primary_slot(kind)]
        == default_param(kind, scale_factor + other_scale_factor));
    if kind == FilterType::AsciiArt {
        assert(8_000_000 * scale_factor == 1_000_000 * (8 * scale_factor)) by (nonlinear_arith);
    } else if kind == FilterType::CrossHatch {
        assert(10_000_000 * scale_factor == 1_000_000 * (10 * scale_factor)) by (nonlinear_arith);
    } else if kind == FilterType::EdgeDetection {
        let s = scale_factor;
        let o = other_scale_factor;
        lemma_fundamental_div_mod(s, 20);
        lemma_fundamental_div_mod(o, 20);
        lemma_fundamental_div_mod(s + o, 20);
        assert(s % 20 >= 0 && s % 20 < 20 && o % 20 >= 0 && o % 20 < 20 && (s + o) % 20 >= 0 && (s + o) % 20 < 20);
        let d = s / 20;
        assert(PARAM_UNIT * d <= 50_000 * s < PARAM_UNIT * (d + 1)) by (nonlinear_arith)
            requires
                s == 20 * d + s % 20,
                0 <= s % 20 < 20,
        ;
    }
}

} // verus!
