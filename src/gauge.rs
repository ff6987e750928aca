//! Angular layout of a half-circle gauge. Angles are exact multiples of
//! pi/300: the arc runs from 300 (pi) to 600 (2 pi) in steps of 10 (pi/30),
//! so every whole percentage lands on an exact angle. Turning angles into
//! screen points is left to the renderer.
use vstd::prelude::*;

verus! {

/// Number of segments of the full half circle.
pub const GAUGE_SEGMENTS: u64 = 30;

/// Angle units in a half turn (pi).
pub const HALF_TURN: u64 = 300;

/// Angle units between two consecutive points of an arc.
pub const ANGLE_STEP: u64 = 10;

/// Where the filled arc ends for `percentage`: linear in the percentage,
/// a half turn at 100.
pub open spec fn fill_end(percentage: u32) -> int {
    300 + 3 * percentage
}

/// Segments of the filled arc: as many steps as reach its end, the last
/// one possibly shorter.
pub open spec fn fill_segments(percentage: u32) -> int {
    (3 * percentage + 9) / 10
}

pub open spec fn background_arc() -> Seq<u64> {
    Seq::new(31, |i: int| (300 + 10 * i) as u64)
}

pub open spec fn fill_arc(percentage: u32) -> Seq<u64> {
    Seq::new(
        (fill_segments(percentage) + 1) as nat,
        |i: int| (if 10 * i <= 3 * percentage { 300 + 10 * i } else { fill_end(percentage) }) as u64,
    )
}

/// Decimal digits of `n`, most significant first.
pub open spec fn decimal(n: nat) -> Seq<char>
    decreases n,
{
    if n < 10 {
        seq![digit_char(n)]
    } else {
        decimal(n / 10).push(digit_char(n % 10))
    }
}

pub open spec fn digit_char(d: nat) -> char {
    ((d + 48) as u8) as char
}

/// The label of a gauge: the percentage with no decimals, then `%`.
pub open spec fn label_text(percentage: u32) -> Seq<char> {
    decimal(percentage as nat).push('%')
}

/// Relies on std's String::push: appends one character.
#[verifier::external_body]
fn push_char(s: &mut String, c: char)
    ensures
        final(s)@ == old(s)@.push(c),
{
    s.push(c)
}

/// The points of a gauge: background arc, filled arc, and label text.
pub struct GaugeLayout {
    pub background: Vec<u64>,
    pub fill: Vec<u64>,
    pub label: String,
}

/// The angles of the full half circle, left to right.
pub fn background_angles() -> (r: Vec<u64>)
    ensures
        r@ == background_arc(),
{
    let mut r: Vec<u64> = Vec::new();
    let mut i: u64 = 0;
    while i <= GAUGE_SEGMENTS
        invariant
            i <= 31,
            r@.len() == i,
            forall|j: int| 0 <= j < i ==> #[trigger] r@[j] == 300 + 10 * j,
        decreases 31 - i,
    {
        r.push(HALF_TURN + ANGLE_STEP * i);
        i = i + 1;
    }
    assert(r@ =~= background_arc());
    r
}

/// The angles of the filled arc for `percentage`: same start and step as
/// the background, ending at `fill_end`. Out-of-range input extends the
/// arc past the half circle.
pub fn fill_angles(percentage: u32) -> (r: Vec<u64>)
    ensures
        r@ == fill_arc(percentage),
{
    let end: u64 = HALF_TURN + 3 * (percentage as u64);
    let segments: u64 = (3 * (percentage as u64) + 9) / 10;
    let mut r: Vec<u64> = Vec::new();
    let mut i: u64 = 0;
    while i <= segments
        invariant
            segments == fill_segments(percentage),
            end == fill_end(percentage),
            i <= segments + 1,
            r@.len() == i,
            forall|j: int| 0 <= j < i ==> #[trigger] r@[j] == fill_arc(percentage)[j],
        decreases segments + 1 - i,
    {
        let offset: u64 = ANGLE_STEP * i;
        if offset <= 3 * (percentage as u64) {
            r.push(HALF_TURN + offset);
        } else {
            r.push(end);
        }
        i = i + 1;
    }
    assert(r@ =~= fill_arc(percentage));
    r
}

/// Appends the decimal digits of `n` to `s`.
fn push_decimal(s: &mut String, n: u32)
    ensures
        final(s)@ == old(s)@ + decimal(n as nat),
    decreases n,
{
    if n >= 10 {
        push_decimal(s, n / 10);
    }
    let d: u32 = n % 10;
    push_char(s, ((d + 48) as u8) as char);
    proof {
        if n >= 10 {
            assert(old(s)@ + decimal(n as nat) =~= old(s)@ + decimal((n / 10) as nat) + seq![digit_char((n % 10) as nat)]);
        } else {
            assert(old(s)@ + decimal(n as nat) =~= old(s)@ + seq![digit_char(n as nat)]);
        }
    }
}

/// The percentage with no decimals, followed by `%`.
pub fn percent_label(percentage: u32) -> (r: String)
    ensures
        r@ == label_text(percentage),
{
    let mut s = String::new();
    push_decimal(&mut s, percentage);
    push_char(&mut s, '%');
    assert(s@ =~= label_text(percentage));
    s
}

/// At 0% the filled arc is a single point at the start angle: zero
/// angular length.
pub proof fn law_empty_gauge()
    ensures
        fill_arc(0).len() == 1,
        fill_arc(0)[0] == background_arc()[0],
        fill_arc(0).last() == fill_arc(0)[0],
{
}

/// At 100% the filled arc is the background arc: same number of points,
/// same endpoints, point for point.
pub proof fn law_full_gauge()
    ensures
        fill_arc(100).len() == background_arc().len(),
        fill_arc(100)[0] == background_arc()[0],
        fill_arc(100).last() == background_arc().last(),
        fill_arc(100) == background_arc(),
{
    assert(fill_arc(100) =~= background_arc());
}

/// At 50% the filled arc spans exactly half the background's angular range,
/// from the same start.
pub proof fn law_half_gauge()
    ensures
        fill_arc(50)[0] == background_arc()[0],
        2 * (fill_arc(50).last() - fill_arc(50)[0]) == background_arc().last() - background_arc()[0],
{
}

/// For every percentage the filled arc starts where the background does,
/// ends at `fill_end`, and is as long in angle as the percentage says.
pub proof fn law_fill_linear(percentage: u32)
    ensures
        fill_arc(percentage)[0] == background_arc()[0],
        fill_arc(percentage).last() == fill_end(percentage),
        100 * (fill_arc(percentage).last() - fill_arc(percentage)[0])
            == percentage * (background_arc().last() - background_arc()[0]),
{
    let n = fill_segments(percentage);
    assert(10 * n >= 3 * percentage);
    let p = percentage as int;
    assert(100 * (3 * p) == p * 300) by (nonlinear_arith);
}

/// The layout of a gauge showing `percentage`.
pub fn compute_gauge(percentage: u32) -> (r: GaugeLayout)
    ensures
        r.background@ == background_arc(),
        r.fill@ == fill_arc(percentage),
        r.label@ == label_text(percentage),
{
    GaugeLayout {
        background: background_angles(),
        fill: fill_angles(percentage),
        label: percent_label(percentage),
    }
}

/// A utilization in hundredths of a percent as the whole percentage a
/// gauge shows: rounded half up, at most 100.
pub fn display_percent(usage_hundredths: u32) -> (r: u32)
    ensures
        r == if (usage_hundredths + 50) / 100 <= 100 { (usage_hundredths + 50) / 100 } else { 100 },
{
    let rounded: u64 = (usage_hundredths as u64 + 50) / 100;
    if rounded <= 100 {
        rounded as u32
    } else {
        100
    }
}


/// The share `used / total` as a whole percentage for a gauge: rounded
/// half up, at most 100, and 0 when nothing is known of the total.
pub fn share_percent(used: u64, total: u64) -> (r: u32)
    ensures
        total == 0 ==> r == 0,
        total > 0 ==> r == if (200 * used + total) / (2 * total) <= 100 {
            (200 * used + total) / (2 * total)
        } else {
            100
        },
{
    if total == 0 {
        return 0;
    }
    let rounded: u128 = (200 * (used as u128) + total as u128) / (2 * (total as u128));
    if rounded <= 100 {
        rounded as u32
    } else {
        100
    }
}

} // verus!
