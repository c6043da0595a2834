use vstd::prelude::*;
use vstd::math::{abs, max, min};

verus! {

/// An axis-aligned box given by its size (`x`, `y`) and its offset from an
/// anchor. The horizontal anchor is supplied at test time; a negative `x`
/// and `offsetx` describe the box mirrored for the other facing direction.
#[derive(Debug, Clone, Copy, PartialEq, Eq, Structural)]
pub struct CBox {
    pub offsetx: i16,
    pub offsety: i16,
    pub x: i16,
    pub y: i16,
}

/// A box whose coordinates are small enough for every sum, difference and
/// mirror image that the simulation takes of it, at any stage position.
pub open spec fn box_in_limits(b: CBox) -> bool {
    -1000 <= b.offsetx <= 1000 && -1000 <= b.offsety <= 1000 && -1000 <= b.x <= 1000 && -1000
        <= b.y <= 1000
}

/// Lower end of the horizontal interval that `b`, anchored at `at`, covers.
pub open spec fn x_low(b: CBox, at: int) -> int {
    min(b.offsetx + at, b.x + b.offsetx + at)
}

/// Upper end of the horizontal interval that `b`, anchored at `at`, covers.
pub open spec fn x_high(b: CBox, at: int) -> int {
    max(b.offsetx + at, b.x + b.offsetx + at)
}

/// Lower end of the vertical range of `b`.
pub open spec fn y_low(b: CBox) -> int {
    min(b.offsety as int, b.y + b.offsety)
}

/// Upper end of the vertical range of `b`. It is taken against the box's
/// horizontal start at `at`, not its vertical start: the hit and hurt boxes
/// of the move tables were tuned against this rule.
pub open spec fn y_high(b: CBox, at: int) -> int {
    max(b.offsetx + at, b.y + b.offsety)
}

/// Whether `a` anchored at `ax` and `b` anchored at `bx` overlap: their
/// horizontal intervals intersect, and so do their vertical ranges.
/// Touching edges do not count.
pub open spec fn boxes_overlap(a: CBox, ax: int, b: CBox, bx: int) -> bool {
    &&& x_low(a, ax) < x_high(b, bx)
    &&& x_low(b, bx) < x_high(a, ax)
    &&& y_low(a) < y_high(b, bx)
    &&& y_low(b) < y_high(a, ax)
}

/// Half of the signed distance between the far edges of `a` at `ax` and
/// `b` at `bx`, rounded toward zero.
pub open spec fn overlap_amount_of(a: CBox, ax: int, b: CBox, bx: int) -> int {
    half_toward_zero((a.x + a.offsetx + ax) - (b.x + b.offsetx + bx))
}

/// Integer halving that rounds toward zero, as Rust's `/` does.
pub open spec fn half_toward_zero(v: int) -> int {
    if v >= 0 {
        v / 2
    } else {
        -((-v) / 2)
    }
}

impl CBox {
    pub open spec fn spec_collision() -> CBox {
        CBox { offsetx: 0, offsety: 0, x: 125, y: 153 }
    }

    pub open spec fn spec_base_hurtbox() -> CBox {
        CBox { offsetx: 0, offsety: 0, x: 158, y: 184 }
    }

    pub open spec fn spec_guard_break_hurtbox() -> CBox {
        CBox { offsetx: 0, offsety: 0, x: 184, y: 184 }
    }

    /// The box mirrored for the opposite facing direction.
    pub open spec fn mirror(self) -> CBox {
        CBox { x: (-self.x) as i16, offsetx: (-self.offsetx) as i16, ..self }
    }

    /// Whether the mirror image is representable.
    pub open spec fn can_mirror(self) -> bool {
        self.x != i16::MIN && self.offsetx != i16::MIN
    }

    /// The body box that keeps two characters apart.
    #[verifier::when_used_as_spec(spec_collision)]
    pub fn collision() -> (r: CBox)
        ensures
            r == CBox::spec_collision(),
    {
        CBox { offsetx: 0, offsety: 0, x: 125, y: 153 }
    }

    /// The vulnerable box of a character standing still.
    #[verifier::when_used_as_spec(spec_base_hurtbox)]
    pub fn base_hurtbox() -> (r: CBox)
        ensures
            r == CBox::spec_base_hurtbox(),
    {
        CBox { offsetx: 0, offsety: 0, x: 158, y: 184 }
    }

    /// The wider vulnerable box of a character whose guard was broken.
    #[verifier::when_used_as_spec(spec_guard_break_hurtbox)]
    pub fn guard_break_hurtbox() -> (r: CBox)
        ensures
            r == CBox::spec_guard_break_hurtbox(),
    {
        CBox { offsetx: 0, offsety: 0, x: 184, y: 184 }
    }

    /// Whether this box anchored at `offsetx1` overlaps `other` anchored at
    /// `offsetx2`. Horizontal intervals are compared first; the vertical
    /// check follows the rule of `y_high`.
    pub fn overlap(self, offsetx1: i16, other: CBox, offsetx2: i16) -> (r: bool)
        ensures
            r == boxes_overlap(self, offsetx1 as int, other, offsetx2 as int),
    {
        let c1x1: i32 = self.offsetx as i32 + offsetx1 as i32;
        let c1x2: i32 = self.x as i32 + self.offsetx as i32 + offsetx1 as i32;
        let c2x1: i32 = other.offsetx as i32 + offsetx2 as i32;
        let c2x2: i32 = other.x as i32 + other.offsetx as i32 + offsetx2 as i32;
        let c1xrange = (i32_min(c1x1, c1x2), i32_max(c1x1, c1x2));
        let c2xrange = (i32_min(c2x1, c2x2), i32_max(c2x1, c2x2));

        if c1xrange.0 >= c2xrange.1 || c2xrange.0 >= c1xrange.1 {
            return false;
        }
        let c1y1: i32 = self.offsety as i32;
        let c1y2: i32 = self.y as i32 + self.offsety as i32;
        let c2y1: i32 = other.offsety as i32;
        let c2y2: i32 = other.y as i32 + other.offsety as i32;
        let c1yrange = (i32_min(c1y1, c1y2), i32_max(c1x1, c1y2));
        let c2yrange = (i32_min(c2y1, c2y2), i32_max(c2x1, c2y2));

        if c1yrange.0 >= c2yrange.1 || c2yrange.0 >= c1yrange.1 {
            return false;
        }
        true
    }

    /// Half the horizontal penetration of this box at `offsetx1` into
    /// `other` at `offsetx2`: the distance each of two bodies is pushed back.
    pub fn overlap_amount(&self, offsetx1: i16, other: CBox, offsetx2: i16) -> (r: i16)
        requires
            i16::MIN <= overlap_amount_of(*self, offsetx1 as int, other, offsetx2 as int)
                <= i16::MAX,
        ensures
            r == overlap_amount_of(*self, offsetx1 as int, other, offsetx2 as int),
    {
        let far1: i32 = self.x as i32 + self.offsetx as i32 + offsetx1 as i32;
        let far2: i32 = other.x as i32 + other.offsetx as i32 + offsetx2 as i32;
        let d: i32 = far1 - far2;
        if d >= 0 {
            (d / 2) as i16
        } else {
            (-((-d) / 2)) as i16
        }
    }
}

fn i32_min(a: i32, b: i32) -> (r: i32)
    ensures
        r == min(a as int, b as int),
{
    if a <= b {
        a
    } else {
        b
    }
}

fn i32_max(a: i32, b: i32) -> (r: i32)
    ensures
        r == max(a as int, b as int),
{
    if a >= b {
        a
    } else {
        b
    }
}

/// Mirroring: the box reflected for the opposite facing direction.
impl core::ops::Neg for CBox {
    type Output = CBox;

    fn neg(self) -> (r: CBox) {
        CBox { x: -self.x, offsetx: -self.offsetx, ..self }
    }
}

impl vstd::std_specs::ops::NegSpecImpl for CBox {
    open spec fn obeys_neg_spec() -> bool {
        true
    }

    open spec fn neg_req(self) -> bool {
        self.can_mirror()
    }

    open spec fn neg_spec(self) -> CBox {
        self.mirror()
    }
}

/// Horizontal scaling: size and offset along x multiplied by a factor.
impl core::ops::Mul<i16> for CBox {
    type Output = CBox;

    fn mul(self, rhs: i16) -> (r: CBox) {
        CBox { x: self.x * rhs, offsetx: self.offsetx * rhs, ..self }
    }
}

impl vstd::std_specs::ops::MulSpecImpl<i16> for CBox {
    open spec fn obeys_mul_spec() -> bool {
        true
    }

    open spec fn mul_req(self, rhs: i16) -> bool {
        i16::MIN <= self.x * rhs <= i16::MAX && i16::MIN <= self.offsetx * rhs <= i16::MAX
    }

    open spec fn mul_spec(self, rhs: i16) -> CBox {
        CBox { x: (self.x * rhs) as i16, offsetx: (self.offsetx * rhs) as i16, ..self }
    }
}

/// Overlap does not depend on which box is named first.
pub proof fn lemma_overlap_symmetric(a: CBox, ax: int, b: CBox, bx: int)
    ensures
        boxes_overlap(a, ax, b, bx) == boxes_overlap(b, bx, a, ax),
{
}

/// Two boxes whose horizontal centres lie at least their combined
/// half-widths apart do not overlap.
pub proof fn lemma_apart_horizontally_no_overlap(a: CBox, ax: int, b: CBox, bx: int)
    requires
        abs((2 * (a.offsetx + ax) + a.x) - (2 * (b.offsetx + bx) + b.x)) >= abs(a.x as int) + abs(
            b.x as int,
        ),
    ensures
        !boxes_overlap(a, ax, b, bx),
{
}

/// Two boxes of non-negative height whose vertical centres lie at least
/// their combined half-heights apart do not overlap, wherever each box's
/// horizontal start lies no higher than its top (see `y_high`).
pub proof fn lemma_apart_vertically_no_overlap(a: CBox, ax: int, b: CBox, bx: int)
    requires
        a.y >= 0,
        b.y >= 0,
        a.offsetx + ax <= a.y + a.offsety,
        b.offsetx + bx <= b.y + b.offsety,
        abs((2 * a.offsety + a.y) - (2 * b.offsety + b.y)) >= a.y + b.y,
    ensures
        !boxes_overlap(a, ax, b, bx),
{
}

/// One slice of a move: movement, body box, optional attack box, up to two
/// vulnerable boxes, and the flags that the combat rules read.
#[derive(Debug, Clone, Copy)]
pub struct FrameData {
    pub speed: i16,
    pub collision: CBox,
    pub hitbox: Option<CBox>,
    pub hurtbox: [Option<CBox>; 2],
    pub cancel: bool,
    pub ender: bool,
    pub low: bool,
}

impl FrameData {
    pub open spec fn spec_default() -> FrameData {
        FrameData {
            speed: 0,
            collision: CBox::spec_collision(),
            hitbox: None,
            hurtbox: [Some(CBox::spec_base_hurtbox()), None],
            cancel: false,
            ender: false,
            low: false,
        }
    }

    /// A still, harmless slice with the standing boxes.
    #[verifier::when_used_as_spec(spec_default)]
    pub fn default() -> (r: FrameData)
        ensures
            r == FrameData::spec_default(),
    {
        FrameData {
            speed: 0,
            collision: CBox::collision(),
            hitbox: None,
            hurtbox: [Some(CBox::base_hurtbox()), None],
            cancel: false,
            ender: false,
            low: false,
        }
    }
}

/// A frame slice, the animation frame shown meanwhile, and how many frames
/// it lasts.
#[derive(Debug, Clone, Copy)]
pub struct MoveData {
    pub data: FrameData,
    pub animation_frame: &'static str,
    pub duration: u8,
}

pub open spec fn opt_box_in_limits(b: Option<CBox>) -> bool {
    match b {
        Some(b) => box_in_limits(b),
        None => true,
    }
}

impl MoveData {
    /// Speed and boxes small enough for the arithmetic of a frame.
    pub open spec fn in_limits(self) -> bool {
        &&& -100 <= self.data.speed <= 100
        &&& box_in_limits(self.data.collision)
        &&& opt_box_in_limits(self.data.hitbox)
        &&& opt_box_in_limits(self.data.hurtbox[0])
        &&& opt_box_in_limits(self.data.hurtbox[1])
    }
}

/// Sum of the durations of the first `k` entries of a script.
pub open spec fn cumulative(s: Seq<MoveData>, k: int) -> int
    decreases k,
{
    if k <= 0 {
        0
    } else {
        cumulative(s, k - 1) + s[k - 1].duration
    }
}

/// Length of a script in frames: the sum of all its durations.
pub open spec fn script_len(s: Seq<MoveData>) -> int {
    cumulative(s, s.len() as int)
}

/// The first entry from index `k` on whose cumulative range ends after
/// frame `i`.
pub open spec fn find_from(s: Seq<MoveData>, i: int, k: int) -> Option<MoveData>
    decreases s.len() - k,
{
    if k < 0 || k >= s.len() {
        None
    } else if i < cumulative(s, k + 1) {
        Some(s[k])
    } else {
        find_from(s, i, k + 1)
    }
}

/// The entry of script `s` active at elapsed frame `i`, or none past its end.
pub open spec fn script_entry(s: Seq<MoveData>, i: int) -> Option<MoveData> {
    find_from(s, i, 0)
}

/// A script whose entries all last at least a frame and stay in limits.
pub open spec fn script_wf(s: Seq<MoveData>) -> bool {
    &&& s.len() > 0
    &&& forall|k: int| 0 <= k < s.len() ==> (#[trigger] s[k]).duration > 0 && s[k].in_limits()
}

pub proof fn lemma_cumulative_mono(s: Seq<MoveData>, a: int, b: int)
    requires
        0 <= a <= b,
    ensures
        cumulative(s, a) <= cumulative(s, b),
    decreases b - a,
{
    if a < b {
        lemma_cumulative_mono(s, a, b - 1);
    }
}

proof fn lemma_find_from_in_range(s: Seq<MoveData>, i: int, k: int)
    requires
        0 <= k <= s.len(),
        cumulative(s, k) <= i < script_len(s),
    ensures
        exists|j: int|
            k <= j < s.len() && cumulative(s, j) <= i < cumulative(s, j + 1) && find_from(s, i, k)
                == Some(#[trigger] s[j]),
    decreases s.len() - k,
{
    if k == s.len() {
    } else if i < cumulative(s, k + 1) {
        assert(find_from(s, i, k) == Some(s[k]));
    } else {
        lemma_find_from_in_range(s, i, k + 1);
    }
}

proof fn lemma_find_from_past_end(s: Seq<MoveData>, i: int, k: int)
    requires
        0 <= k,
        i >= script_len(s),
    ensures
        find_from(s, i, k) is None,
    decreases s.len() - k,
{
    if k < s.len() {
        lemma_cumulative_mono(s, k + 1, s.len() as int);
        lemma_find_from_past_end(s, i, k + 1);
    }
}

/// Lookup succeeds on every frame before a script's end, with the entry
/// whose cumulative range holds that frame, and fails from the end on.
pub proof fn lemma_lookup_covers(s: Seq<MoveData>, i: int)
    requires
        0 <= i,
    ensures
        i < script_len(s) ==> exists|k: int|
            0 <= k < s.len() && cumulative(s, k) <= i < cumulative(s, k + 1) && script_entry(s, i)
                == Some(#[trigger] s[k]),
        i >= script_len(s) ==> script_entry(s, i) is None,
{
    if i < script_len(s) {
        lemma_find_from_in_range(s, i, 0);
    } else {
        lemma_find_from_past_end(s, i, 0);
    }
}

/// Frame zero of a script whose first entry lasts a frame is that entry.
pub proof fn lemma_lookup_first(s: Seq<MoveData>)
    requires
        s.len() > 0,
        s[0].duration > 0,
    ensures
        script_entry(s, 0) == Some(s[0]),
{
    assert(cumulative(s, 1) == cumulative(s, 0) + s[0].duration);
}

/// The entry of `script` active at elapsed frame `frame`: the entries are
/// walked in order, each consuming its duration, until one covers the frame.
/// Returns `None` once the frame lies past the script's end.
pub fn lookup(script: &[MoveData], frame: u8) -> (r: Option<MoveData>)
    ensures
        r == script_entry(script@, frame as int),
{
    let mut remaining: usize = frame as usize + 1;
    let mut k: usize = 0;
    while k < script.len()
        invariant
            0 <= k <= script@.len(),
            remaining > 0,
            remaining == frame + 1 - cumulative(script@, k as int),
            script_entry(script@, frame as int) == find_from(script@, frame as int, k as int),
        decreases script@.len() - k,
    {
        let d = script[k];
        remaining = remaining.saturating_sub(d.duration as usize);
        if remaining == 0 {
            return Some(d);
        }
        k += 1;
    }
    None
}

/// The length of a script in frames, the sum of its entries' durations.
pub fn move_length(data: &[MoveData]) -> (r: u8)
    requires
        script_len(data@) <= u8::MAX,
    ensures
        r == script_len(data@),
{
    let mut i: usize = 0;
    let mut res: u8 = 0;
    while i < data.len()
        invariant
            0 <= i <= data@.len(),
            res == cumulative(data@, i as int),
            script_len(data@) <= u8::MAX,
        decreases data@.len() - i,
    {
        proof {
            lemma_cumulative_mono(data@, i + 1, data@.len() as int);
        }
        res += data[i].duration;
        i += 1;
    }
    res
}

/// The script of standing still.
pub open spec fn idle_script() -> Seq<MoveData> {
    seq![
        MoveData { data: FrameData::default(), animation_frame: "idle_0", duration: 6 },
        MoveData { data: FrameData::default(), animation_frame: "idle_1", duration: 3 },
        MoveData { data: FrameData::default(), animation_frame: "idle_2", duration: 6 },
        MoveData { data: FrameData::default(), animation_frame: "idle_3", duration: 6 },
        MoveData { data: FrameData::default(), animation_frame: "idle_4", duration: 3 },
    ]
}

/// The script of standing still, as a vector.
pub fn idle_moves() -> (r: Vec<MoveData>)
    ensures
        r@ == idle_script(),
{
    let r = vec![
        MoveData { data: FrameData::default(), animation_frame: "idle_0", duration: 6 },
        MoveData { data: FrameData::default(), animation_frame: "idle_1", duration: 3 },
        MoveData { data: FrameData::default(), animation_frame: "idle_2", duration: 6 },
        MoveData { data: FrameData::default(), animation_frame: "idle_3", duration: 6 },
        MoveData { data: FrameData::default(), animation_frame: "idle_4", duration: 3 },
    ];
    assert(r@ =~= idle_script());
    r
}

/// The entry of standing still active at elapsed frame `frame`, if the move lasts that long.
pub fn idle_data(frame: u8) -> (r: Option<MoveData>)
    ensures
        r == script_entry(idle_script(), frame as int),
{
    let moves = idle_moves();
    lookup(moves.as_slice(), frame)
}

/// The script of walking forward.
pub open spec fn fwalk_script() -> Seq<MoveData> {
    seq![
        MoveData {
            data: FrameData { speed: 6, ..FrameData::default() },
            animation_frame: "fwalk_0",
            duration: 4,
        },
        MoveData {
            data: FrameData { speed: 6, ..FrameData::default() },
            animation_frame: "fwalk_1",
            duration: 4,
        },
        MoveData {
            data: FrameData { speed: 6, ..FrameData::default() },
            animation_frame: "fwalk_2",
            duration: 4,
        },
        MoveData {
            data: FrameData { speed: 6, ..FrameData::default() },
            animation_frame: "fwalk_3",
            duration: 4,
        },
        MoveData {
            data: FrameData { speed: 6, ..FrameData::default() },
            animation_frame: "fwalk_4",
            duration: 4,
        },
        MoveData {
            data: FrameData { speed: 6, ..FrameData::default() },
            animation_frame: "fwalk_5",
            duration: 4,
        },
    ]
}

/// The script of walking forward, as a vector.
pub fn fwalk_moves() -> (r: Vec<MoveData>)
    ensures
        r@ == fwalk_script(),
{
    let r = vec![
        MoveData {
            data: FrameData { speed: 6, ..FrameData::default() },
            animation_frame: "fwalk_0",
            duration: 4,
        },
        MoveData {
            data: FrameData { speed: 6, ..FrameData::default() },
            animation_frame: "fwalk_1",
            duration: 4,
        },
        MoveData {
            data: FrameData { speed: 6, ..FrameData::default() },
            animation_frame: "fwalk_2",
            duration: 4,
        },
        MoveData {
            data: FrameData { speed: 6, ..FrameData::default() },
            animation_frame: "fwalk_3",
            duration: 4,
        },
        MoveData {
            data: FrameData { speed: 6, ..FrameData::default() },
            animation_frame: "fwalk_4",
            duration: 4,
        },
        MoveData {
            data: FrameData { speed: 6, ..FrameData::default() },
            animation_frame: "fwalk_5",
            duration: 4,
        },
    ];
    assert(r@ =~= fwalk_script());
    r
}

/// The entry of walking forward active at elapsed frame `frame`, if the move lasts that long.
pub fn fwalk_data(frame: u8) -> (r: Option<MoveData>)
    ensures
        r == script_entry(fwalk_script(), frame as int),
{
    let moves = fwalk_moves();
    lookup(moves.as_slice(), frame)
}

/// The script of walking backward.
pub open spec fn bwalk_script() -> Seq<MoveData> {
    seq![
        MoveData {
            data: FrameData { speed: -5 as i16, ..FrameData::default() },
            animation_frame: "bwalk_0",
            duration: 4,
        },
        MoveData {
            data: FrameData { speed: -5 as i16, ..FrameData::default() },
            animation_frame: "bwalk_1",
            duration: 4,
        },
        MoveData {
            data: FrameData { speed: -5 as i16, ..FrameData::default() },
            animation_frame: "bwalk_2",
            duration: 4,
        },
        MoveData {
            data: FrameData { speed: -5 as i16, ..FrameData::default() },
            animation_frame: "bwalk_3",
            duration: 4,
        },
        MoveData {
            data: FrameData { speed: -5 as i16, ..FrameData::default() },
            animation_frame: "bwalk_4",
            duration: 4,
        },
        MoveData {
            data: FrameData { speed: -5 as i16, ..FrameData::default() },
            animation_frame: "bwalk_5",
            duration: 4,
        },
    ]
}

/// The script of walking backward, as a vector.
pub fn bwalk_moves() -> (r: Vec<MoveData>)
    ensures
        r@ == bwalk_script(),
{
    let r = vec![
        MoveData {
            data: FrameData { speed: -5 as i16, ..FrameData::default() },
            animation_frame: "bwalk_0",
            duration: 4,
        },
        MoveData {
            data: FrameData { speed: -5 as i16, ..FrameData::default() },
            animation_frame: "bwalk_1",
            duration: 4,
        },
        MoveData {
            data: FrameData { speed: -5 as i16, ..FrameData::default() },
            animation_frame: "bwalk_2",
            duration: 4,
        },
        MoveData {
            data: FrameData { speed: -5 as i16, ..FrameData::default() },
            animation_frame: "bwalk_3",
            duration: 4,
        },
        MoveData {
            data: FrameData { speed: -5 as i16, ..FrameData::default() },
            animation_frame: "bwalk_4",
            duration: 4,
        },
        MoveData {
            data: FrameData { speed: -5 as i16, ..FrameData::default() },
            animation_frame: "bwalk_5",
            duration: 4,
        },
    ];
    assert(r@ =~= bwalk_script());
    r
}

/// The entry of walking backward active at elapsed frame `frame`, if the move lasts that long.
pub fn bwalk_data(frame: u8) -> (r: Option<MoveData>)
    ensures
        r == script_entry(bwalk_script(), frame as int),
{
    let moves = bwalk_moves();
    lookup(moves.as_slice(), frame)
}

/// The script of the neutral normal attack (a low poke).
pub open spec fn nnormal_script() -> Seq<MoveData> {
    seq![
        MoveData { data: FrameData::default(), animation_frame: "nnormal_0", duration: 2 },
        MoveData { data: FrameData::default(), animation_frame: "nnormal_1", duration: 3 },
        MoveData {
            data: FrameData {
                cancel: true,
                low: true,
                hitbox: Some(CBox { offsetx: 140, offsety: 0, x: 159, y: 46 }),
                hurtbox: [Some(CBox::base_hurtbox()), Some(CBox { offsetx: 149, offsety: 0, x: 175, y: 61 })],
                ..FrameData::default()
            },
            animation_frame: "nnormal_2",
            duration: 2,
        },
        MoveData {
            data: FrameData {
                cancel: true,
                hurtbox: [Some(CBox::base_hurtbox()), Some(CBox { offsetx: 149, offsety: 0, x: 175, y: 61 })],
                ..FrameData::default()
            },
            animation_frame: "nnormal_2",
            duration: 10,
        },
        MoveData {
            data: FrameData {
                hurtbox: [Some(CBox::base_hurtbox()), Some(CBox { offsetx: 79, offsety: 0, x: 158, y: 74 })],
                ..FrameData::default()
            },
            animation_frame: "nnormal_3",
            duration: 4,
        },
        MoveData { data: FrameData::default(), animation_frame: "nnormal_4", duration: 2 },
    ]
}

/// The script of the neutral normal attack (a low poke), as a vector.
pub fn nnormal_moves() -> (r: Vec<MoveData>)
    ensures
        r@ == nnormal_script(),
{
    let r = vec![
        MoveData { data: FrameData::default(), animation_frame: "nnormal_0", duration: 2 },
        MoveData { data: FrameData::default(), animation_frame: "nnormal_1", duration: 3 },
        MoveData {
            data: FrameData {
                cancel: true,
                low: true,
                hitbox: Some(CBox { offsetx: 140, offsety: 0, x: 159, y: 46 }),
                hurtbox: [Some(CBox::base_hurtbox()), Some(CBox { offsetx: 149, offsety: 0, x: 175, y: 61 })],
                ..FrameData::default()
            },
            animation_frame: "nnormal_2",
            duration: 2,
        },
        MoveData {
            data: FrameData {
                cancel: true,
                hurtbox: [Some(CBox::base_hurtbox()), Some(CBox { offsetx: 149, offsety: 0, x: 175, y: 61 })],
                ..FrameData::default()
            },
            animation_frame: "nnormal_2",
            duration: 10,
        },
        MoveData {
            data: FrameData {
                hurtbox: [Some(CBox::base_hurtbox()), Some(CBox { offsetx: 79, offsety: 0, x: 158, y: 74 })],
                ..FrameData::default()
            },
            animation_frame: "nnormal_3",
            duration: 4,
        },
        MoveData { data: FrameData::default(), animation_frame: "nnormal_4", duration: 2 },
    ];
    assert(r@ =~= nnormal_script());
    r
}

/// The entry of the neutral normal attack (a low poke) active at elapsed frame `frame`, if the move lasts that long.
pub fn nnormal_data(frame: u8) -> (r: Option<MoveData>)
    ensures
        r == script_entry(nnormal_script(), frame as int),
{
    let moves = nnormal_moves();
    lookup(moves.as_slice(), frame)
}

/// The script of the normal attack made while moving.
pub open spec fn mnormal_script() -> Seq<MoveData> {
    seq![
        MoveData { data: FrameData::default(), animation_frame: "mnormal_0", duration: 2 },
        MoveData { data: FrameData::default(), animation_frame: "mnormal_1", duration: 2 },
        MoveData {
            data: FrameData {
                cancel: true,
                hitbox: Some(CBox { offsetx: 130, offsety: 0, x: 130, y: 138 }),
                hurtbox: [Some(CBox::base_hurtbox()), Some(CBox { offsetx: 130, offsety: 0, x: 130, y: 138 })],
                ..FrameData::default()
            },
            animation_frame: "mnormal_2",
            duration: 2,
        },
        MoveData {
            data: FrameData {
                cancel: true,
                hurtbox: [Some(CBox::base_hurtbox()), Some(CBox { offsetx: 130, offsety: 0, x: 130, y: 138 })],
                ..FrameData::default()
            },
            animation_frame: "mnormal_2",
            duration: 10,
        },
        MoveData {
            data: FrameData {
                hurtbox: [Some(CBox::base_hurtbox()), Some(CBox { offsetx: 111, offsety: 0, x: 111, y: 138 })],
                ..FrameData::default()
            },
            animation_frame: "mnormal_3",
            duration: 4,
        },
        MoveData { data: FrameData::default(), animation_frame: "mnormal_4", duration: 2 },
    ]
}

/// The script of the normal attack made while moving, as a vector.
pub fn mnormal_moves() -> (r: Vec<MoveData>)
    ensures
        r@ == mnormal_script(),
{
    let r = vec![
        MoveData { data: FrameData::default(), animation_frame: "mnormal_0", duration: 2 },
        MoveData { data: FrameData::default(), animation_frame: "mnormal_1", duration: 2 },
        MoveData {
            data: FrameData {
                cancel: true,
                hitbox: Some(CBox { offsetx: 130, offsety: 0, x: 130, y: 138 }),
                hurtbox: [Some(CBox::base_hurtbox()), Some(CBox { offsetx: 130, offsety: 0, x: 130, y: 138 })],
                ..FrameData::default()
            },
            animation_frame: "mnormal_2",
            duration: 2,
        },
        MoveData {
            data: FrameData {
                cancel: true,
                hurtbox: [Some(CBox::base_hurtbox()), Some(CBox { offsetx: 130, offsety: 0, x: 130, y: 138 })],
                ..FrameData::default()
            },
            animation_frame: "mnormal_2",
            duration: 10,
        },
        MoveData {
            data: FrameData {
                hurtbox: [Some(CBox::base_hurtbox()), Some(CBox { offsetx: 111, offsety: 0, x: 111, y: 138 })],
                ..FrameData::default()
            },
            animation_frame: "mnormal_3",
            duration: 4,
        },
        MoveData { data: FrameData::default(), animation_frame: "mnormal_4", duration: 2 },
    ];
    assert(r@ =~= mnormal_script());
    r
}

/// The entry of the normal attack made while moving active at elapsed frame `frame`, if the move lasts that long.
pub fn mnormal_data(frame: u8) -> (r: Option<MoveData>)
    ensures
        r == script_entry(mnormal_script(), frame as int),
{
    let moves = mnormal_moves();
    lookup(moves.as_slice(), frame)
}

/// The script of the neutral special attack (a lunging match-ender).
pub open spec fn nspecial_script() -> Seq<MoveData> {
    seq![
        MoveData {
            data: FrameData { speed: 10, ..FrameData::default() },
            animation_frame: "nspecial_0",
            duration: 3,
        },
        MoveData {
            data: FrameData { speed: 13, ..FrameData::default() },
            animation_frame: "nspecial_1",
            duration: 2,
        },
        MoveData {
            data: FrameData { speed: 16, ..FrameData::default() },
            animation_frame: "nspecial_2",
            duration: 3,
        },
        MoveData {
            data: FrameData { speed: 16, ..FrameData::default() },
            animation_frame: "nspecial_3",
            duration: 2,
        },
        MoveData {
            data: FrameData { speed: 16, ..FrameData::default() },
            animation_frame: "nspecial_4",
            duration: 1,
        },
        MoveData {
            data: FrameData {
                speed: 16,
                ender: true,
                hitbox: Some(CBox { offsetx: 158, offsety: 119, x: 158, y: 55 }),
                hurtbox: [Some(CBox::base_hurtbox()), Some(CBox { offsetx: 127, offsety: 120, x: 127, y: 73 })],
                ..FrameData::default()
            },
            animation_frame: "nspecial_5",
            duration: 4,
        },
        MoveData {
            data: FrameData {
                speed: 6,
                hurtbox: [Some(CBox::base_hurtbox()), Some(CBox { offsetx: 127, offsety: 120, x: 127, y: 73 })],
                ..FrameData::default()
            },
            animation_frame: "nspecial_5",
            duration: 2,
        },
        MoveData {
            data: FrameData {
                speed: 3,
                hurtbox: [Some(CBox::base_hurtbox()), Some(CBox { offsetx: 127, offsety: 120, x: 127, y: 73 })],
                ..FrameData::default()
            },
            animation_frame: "nspecial_5",
            duration: 2,
        },
        MoveData {
            data: FrameData {
                hurtbox: [Some(CBox::base_hurtbox()), Some(CBox { offsetx: 127, offsety: 120, x: 127, y: 73 })],
                ..FrameData::default()
            },
            animation_frame: "nspecial_5",
            duration: 7,
        },
        MoveData {
            data: FrameData {
                hurtbox: [Some(CBox::base_hurtbox()), Some(CBox { offsetx: 120, offsety: 120, x: 120, y: 73 })],
                ..FrameData::default()
            },
            animation_frame: "nspecial_6",
            duration: 3,
        },
        MoveData { data: FrameData::default(), animation_frame: "nspecial_6", duration: 12 },
        MoveData { data: FrameData::default(), animation_frame: "nspecial_7", duration: 2 },
    ]
}

/// The script of the neutral special attack (a lunging match-ender), as a vector.
pub fn nspecial_moves() -> (r: Vec<MoveData>)
    ensures
        r@ == nspecial_script(),
{
    let r = vec![
        MoveData {
            data: FrameData { speed: 10, ..FrameData::default() },
            animation_frame: "nspecial_0",
            duration: 3,
        },
        MoveData {
            data: FrameData { speed: 13, ..FrameData::default() },
            animation_frame: "nspecial_1",
            duration: 2,
        },
        MoveData {
            data: FrameData { speed: 16, ..FrameData::default() },
            animation_frame: "nspecial_2",
            duration: 3,
        },
        MoveData {
            data: FrameData { speed: 16, ..FrameData::default() },
            animation_frame: "nspecial_3",
            duration: 2,
        },
        MoveData {
            data: FrameData { speed: 16, ..FrameData::default() },
            animation_frame: "nspecial_4",
            duration: 1,
        },
        MoveData {
            data: FrameData {
                speed: 16,
                ender: true,
                hitbox: Some(CBox { offsetx: 158, offsety: 119, x: 158, y: 55 }),
                hurtbox: [Some(CBox::base_hurtbox()), Some(CBox { offsetx: 127, offsety: 120, x: 127, y: 73 })],
                ..FrameData::default()
            },
            animation_frame: "nspecial_5",
            duration: 4,
        },
        MoveData {
            data: FrameData {
                speed: 6,
                hurtbox: [Some(CBox::base_hurtbox()), Some(CBox { offsetx: 127, offsety: 120, x: 127, y: 73 })],
                ..FrameData::default()
            },
            animation_frame: "nspecial_5",
            duration: 2,
        },
        MoveData {
            data: FrameData {
                speed: 3,
                hurtbox: [Some(CBox::base_hurtbox()), Some(CBox { offsetx: 127, offsety: 120, x: 127, y: 73 })],
                ..FrameData::default()
            },
            animation_frame: "nspecial_5",
            duration: 2,
        },
        MoveData {
            data: FrameData {
                hurtbox: [Some(CBox::base_hurtbox()), Some(CBox { offsetx: 127, offsety: 120, x: 127, y: 73 })],
                ..FrameData::default()
            },
            animation_frame: "nspecial_5",
            duration: 7,
        },
        MoveData {
            data: FrameData {
                hurtbox: [Some(CBox::base_hurtbox()), Some(CBox { offsetx: 120, offsety: 120, x: 120, y: 73 })],
                ..FrameData::default()
            },
            animation_frame: "nspecial_6",
            duration: 3,
        },
        MoveData { data: FrameData::default(), animation_frame: "nspecial_6", duration: 12 },
        MoveData { data: FrameData::default(), animation_frame: "nspecial_7", duration: 2 },
    ];
    assert(r@ =~= nspecial_script());
    r
}

/// The entry of the neutral special attack (a lunging match-ender) active at elapsed frame `frame`, if the move lasts that long.
pub fn nspecial_data(frame: u8) -> (r: Option<MoveData>)
    ensures
        r == script_entry(nspecial_script(), frame as int),
{
    let moves = nspecial_moves();
    lookup(moves.as_slice(), frame)
}

/// The script of the special attack made while moving (a match-ender).
pub open spec fn mspecial_script() -> Seq<MoveData> {
    seq![
        MoveData {
            data: FrameData {
                speed: 8,
                hurtbox: [None, None],
                ..FrameData::default()
            },
            animation_frame: "mspecial_0",
            duration: 1,
        },
        MoveData {
            data: FrameData {
                speed: 8,
                hurtbox: [None, None],
                ..FrameData::default()
            },
            animation_frame: "mspecial_1",
            duration: 1,
        },
        MoveData {
            data: FrameData {
                speed: 7,
                ender: true,
                hitbox: Some(CBox { offsetx: 95, offsety: 0, x: 95, y: 158 }),
                hurtbox: [None, None],
                ..FrameData::default()
            },
            animation_frame: "mspecial_2",
            duration: 1,
        },
        MoveData {
            data: FrameData {
                speed: 5,
                ender: true,
                hitbox: Some(CBox { offsetx: 95, offsety: 0, x: 95, y: 158 }),
                hurtbox: [None, None],
                ..FrameData::default()
            },
            animation_frame: "mspecial_2",
            duration: 3,
        },
        MoveData {
            data: FrameData {
                speed: 5,
                ender: true,
                hitbox: Some(CBox { offsetx: 95, offsety: 0, x: 95, y: 158 }),
                ..FrameData::default()
            },
            animation_frame: "mspecial_3",
            duration: 2,
        },
        MoveData {
            data: FrameData { speed: 5, ..FrameData::default() },
            animation_frame: "mspecial_3",
            duration: 3,
        },
        MoveData {
            data: FrameData { speed: 3, ..FrameData::default() },
            animation_frame: "mspecial_3",
            duration: 5,
        },
        MoveData { data: FrameData::default(), animation_frame: "mspecial_3", duration: 20 },
        MoveData { data: FrameData::default(), animation_frame: "mspecial_4", duration: 10 },
        MoveData { data: FrameData::default(), animation_frame: "mspecial_5", duration: 7 },
        MoveData { data: FrameData::default(), animation_frame: "mspecial_6", duration: 2 },
    ]
}

/// The script of the special attack made while moving (a match-ender), as a vector.
pub fn mspecial_moves() -> (r: Vec<MoveData>)
    ensures
        r@ == mspecial_script(),
{
    let r = vec![
        MoveData {
            data: FrameData {
                speed: 8,
                hurtbox: [None, None],
                ..FrameData::default()
            },
            animation_frame: "mspecial_0",
            duration: 1,
        },
        MoveData {
            data: FrameData {
                speed: 8,
                hurtbox: [None, None],
                ..FrameData::default()
            },
            animation_frame: "mspecial_1",
            duration: 1,
        },
        MoveData {
            data: FrameData {
                speed: 7,
                ender: true,
                hitbox: Some(CBox { offsetx: 95, offsety: 0, x: 95, y: 158 }),
                hurtbox: [None, None],
                ..FrameData::default()
            },
            animation_frame: "mspecial_2",
            duration: 1,
        },
        MoveData {
            data: FrameData {
                speed: 5,
                ender: true,
                hitbox: Some(CBox { offsetx: 95, offsety: 0, x: 95, y: 158 }),
                hurtbox: [None, None],
                ..FrameData::default()
            },
            animation_frame: "mspecial_2",
            duration: 3,
        },
        MoveData {
            data: FrameData {
                speed: 5,
                ender: true,
                hitbox: Some(CBox { offsetx: 95, offsety: 0, x: 95, y: 158 }),
                ..FrameData::default()
            },
            animation_frame: "mspecial_3",
            duration: 2,
        },
        MoveData {
            data: FrameData { speed: 5, ..FrameData::default() },
            animation_frame: "mspecial_3",
            duration: 3,
        },
        MoveData {
            data: FrameData { speed: 3, ..FrameData::default() },
            animation_frame: "mspecial_3",
            duration: 5,
        },
        MoveData { data: FrameData::default(), animation_frame: "mspecial_3", duration: 20 },
        MoveData { data: FrameData::default(), animation_frame: "mspecial_4", duration: 10 },
        MoveData { data: FrameData::default(), animation_frame: "mspecial_5", duration: 7 },
        MoveData { data: FrameData::default(), animation_frame: "mspecial_6", duration: 2 },
    ];
    assert(r@ =~= mspecial_script());
    r
}

/// The entry of the special attack made while moving (a match-ender) active at elapsed frame `frame`, if the move lasts that long.
pub fn mspecial_data(frame: u8) -> (r: Option<MoveData>)
    ensures
        r == script_entry(mspecial_script(), frame as int),
{
    let moves = mspecial_moves();
    lookup(moves.as_slice(), frame)
}

/// The script of the forward dash.
pub open spec fn fdash_script() -> Seq<MoveData> {
    seq![
        MoveData {
            data: FrameData { speed: 13, ..FrameData::default() },
            animation_frame: "fdash_0",
            duration: 3,
        },
        MoveData {
            data: FrameData { speed: 18, ..FrameData::default() },
            animation_frame: "fdash_0",
            duration: 5,
        },
        MoveData {
            data: FrameData { speed: 18, ..FrameData::default() },
            animation_frame: "fdash_1",
            duration: 1,
        },
        MoveData {
            data: FrameData { speed: 12, ..FrameData::default() },
            animation_frame: "fdash_1",
            duration: 2,
        },
        MoveData {
            data: FrameData { speed: 12, ..FrameData::default() },
            animation_frame: "fdash_2",
            duration: 1,
        },
        MoveData {
            data: FrameData { speed: 5, ..FrameData::default() },
            animation_frame: "fdash_2",
            duration: 1,
        },
        MoveData {
            data: FrameData { speed: 5, ..FrameData::default() },
            animation_frame: "fdash_3",
            duration: 1,
        },
        MoveData {
            data: FrameData { speed: 3, ..FrameData::default() },
            animation_frame: "fdash_3",
            duration: 1,
        },
        MoveData { data: FrameData::default(), animation_frame: "fdash_4", duration: 1 },
    ]
}

/// The script of the forward dash, as a vector.
pub fn fdash_moves() -> (r: Vec<MoveData>)
    ensures
        r@ == fdash_script(),
{
    let r = vec![
        MoveData {
            data: FrameData { speed: 13, ..FrameData::default() },
            animation_frame: "fdash_0",
            duration: 3,
        },
        MoveData {
            data: FrameData { speed: 18, ..FrameData::default() },
            animation_frame: "fdash_0",
            duration: 5,
        },
        MoveData {
            data: FrameData { speed: 18, ..FrameData::default() },
            animation_frame: "fdash_1",
            duration: 1,
        },
        MoveData {
            data: FrameData { speed: 12, ..FrameData::default() },
            animation_frame: "fdash_1",
            duration: 2,
        },
        MoveData {
            data: FrameData { speed: 12, ..FrameData::default() },
            animation_frame: "fdash_2",
            duration: 1,
        },
        MoveData {
            data: FrameData { speed: 5, ..FrameData::default() },
            animation_frame: "fdash_2",
            duration: 1,
        },
        MoveData {
            data: FrameData { speed: 5, ..FrameData::default() },
            animation_frame: "fdash_3",
            duration: 1,
        },
        MoveData {
            data: FrameData { speed: 3, ..FrameData::default() },
            animation_frame: "fdash_3",
            duration: 1,
        },
        MoveData { data: FrameData::default(), animation_frame: "fdash_4", duration: 1 },
    ];
    assert(r@ =~= fdash_script());
    r
}

/// The entry of the forward dash active at elapsed frame `frame`, if the move lasts that long.
pub fn fdash_data(frame: u8) -> (r: Option<MoveData>)
    ensures
        r == script_entry(fdash_script(), frame as int),
{
    let moves = fdash_moves();
    lookup(moves.as_slice(), frame)
}

/// The script of the backward dash.
pub open spec fn bdash_script() -> Seq<MoveData> {
    seq![
        MoveData {
            data: FrameData { speed: -26 as i16, ..FrameData::default() },
            animation_frame: "bdash_0",
            duration: 3,
        },
        MoveData {
            data: FrameData { speed: -12 as i16, ..FrameData::default() },
            animation_frame: "bdash_0",
            duration: 6,
        },
        MoveData {
            data: FrameData { speed: -8 as i16, ..FrameData::default() },
            animation_frame: "bdash_0",
            duration: 2,
        },
        MoveData {
            data: FrameData { speed: -8 as i16, ..FrameData::default() },
            animation_frame: "bdash_1",
            duration: 2,
        },
        MoveData {
            data: FrameData { speed: -3 as i16, ..FrameData::default() },
            animation_frame: "bdash_1",
            duration: 2,
        },
        MoveData { data: FrameData::default(), animation_frame: "bdash_1", duration: 2 },
        MoveData { data: FrameData::default(), animation_frame: "bdash_2", duration: 4 },
        MoveData { data: FrameData::default(), animation_frame: "bdash_3", duration: 1 },
    ]
}

/// The script of the backward dash, as a vector.
pub fn bdash_moves() -> (r: Vec<MoveData>)
    ensures
        r@ == bdash_script(),
{
    let r = vec![
        MoveData {
            data: FrameData { speed: -26 as i16, ..FrameData::default() },
            animation_frame: "bdash_0",
            duration: 3,
        },
        MoveData {
            data: FrameData { speed: -12 as i16, ..FrameData::default() },
            animation_frame: "bdash_0",
            duration: 6,
        },
        MoveData {
            data: FrameData { speed: -8 as i16, ..FrameData::default() },
            animation_frame: "bdash_0",
            duration: 2,
        },
        MoveData {
            data: FrameData { speed: -8 as i16, ..FrameData::default() },
            animation_frame: "bdash_1",
            duration: 2,
        },
        MoveData {
            data: FrameData { speed: -3 as i16, ..FrameData::default() },
            animation_frame: "bdash_1",
            duration: 2,
        },
        MoveData { data: FrameData::default(), animation_frame: "bdash_1", duration: 2 },
        MoveData { data: FrameData::default(), animation_frame: "bdash_2", duration: 4 },
        MoveData { data: FrameData::default(), animation_frame: "bdash_3", duration: 1 },
    ];
    assert(r@ =~= bdash_script());
    r
}

/// The entry of the backward dash active at elapsed frame `frame`, if the move lasts that long.
pub fn bdash_data(frame: u8) -> (r: Option<MoveData>)
    ensures
        r == script_entry(bdash_script(), frame as int),
{
    let moves = bdash_moves();
    lookup(moves.as_slice(), frame)
}

/// The script of reeling from a hit.
pub open spec fn hit_script() -> Seq<MoveData> {
    seq![
        MoveData {
            data: FrameData { speed: -9 as i16, ..FrameData::default() },
            animation_frame: "hit_0",
            duration: 4,
        },
        MoveData {
            data: FrameData { speed: -6 as i16, ..FrameData::default() },
            animation_frame: "hit_0",
            duration: 5,
        },
        MoveData {
            data: FrameData { speed: -2 as i16, ..FrameData::default() },
            animation_frame: "hit_1",
            duration: 4,
        },
        MoveData { data: FrameData::default(), animation_frame: "hit_2", duration: 3 },
        MoveData { data: FrameData::default(), animation_frame: "hit_3", duration: 1 },
    ]
}

/// The script of reeling from a hit, as a vector.
pub fn hit_moves() -> (r: Vec<MoveData>)
    ensures
        r@ == hit_script(),
{
    let r = vec![
        MoveData {
            data: FrameData { speed: -9 as i16, ..FrameData::default() },
            animation_frame: "hit_0",
            duration: 4,
        },
        MoveData {
            data: FrameData { speed: -6 as i16, ..FrameData::default() },
            animation_frame: "hit_0",
            duration: 5,
        },
        MoveData {
            data: FrameData { speed: -2 as i16, ..FrameData::default() },
            animation_frame: "hit_1",
            duration: 4,
        },
        MoveData { data: FrameData::default(), animation_frame: "hit_2", duration: 3 },
        MoveData { data: FrameData::default(), animation_frame: "hit_3", duration: 1 },
    ];
    assert(r@ =~= hit_script());
    r
}

/// The entry of reeling from a hit active at elapsed frame `frame`, if the move lasts that long.
pub fn hit_data(frame: u8) -> (r: Option<MoveData>)
    ensures
        r == script_entry(hit_script(), frame as int),
{
    let moves = hit_moves();
    lookup(moves.as_slice(), frame)
}

/// The script of blocking a high attack.
pub open spec fn hblock_script() -> Seq<MoveData> {
    seq![
        MoveData {
            data: FrameData { speed: -8 as i16, ..FrameData::default() },
            animation_frame: "hblock_0",
            duration: 4,
        },
        MoveData {
            data: FrameData { speed: -4 as i16, ..FrameData::default() },
            animation_frame: "hblock_0",
            duration: 3,
        },
        MoveData {
            data: FrameData { speed: -2 as i16, ..FrameData::default() },
            animation_frame: "hblock_0",
            duration: 2,
        },
        MoveData { data: FrameData::default(), animation_frame: "hblock_0", duration: 2 },
        MoveData { data: FrameData::default(), animation_frame: "hblock_1", duration: 4 },
    ]
}

/// The script of blocking a high attack, as a vector.
pub fn hblock_moves() -> (r: Vec<MoveData>)
    ensures
        r@ == hblock_script(),
{
    let r = vec![
        MoveData {
            data: FrameData { speed: -8 as i16, ..FrameData::default() },
            animation_frame: "hblock_0",
            duration: 4,
        },
        MoveData {
            data: FrameData { speed: -4 as i16, ..FrameData::default() },
            animation_frame: "hblock_0",
            duration: 3,
        },
        MoveData {
            data: FrameData { speed: -2 as i16, ..FrameData::default() },
            animation_frame: "hblock_0",
            duration: 2,
        },
        MoveData { data: FrameData::default(), animation_frame: "hblock_0", duration: 2 },
        MoveData { data: FrameData::default(), animation_frame: "hblock_1", duration: 4 },
    ];
    assert(r@ =~= hblock_script());
    r
}

/// The entry of blocking a high attack active at elapsed frame `frame`, if the move lasts that long.
pub fn hblock_data(frame: u8) -> (r: Option<MoveData>)
    ensures
        r == script_entry(hblock_script(), frame as int),
{
    let moves = hblock_moves();
    lookup(moves.as_slice(), frame)
}

/// The script of blocking a low attack.
pub open spec fn lblock_script() -> Seq<MoveData> {
    seq![
        MoveData {
            data: FrameData { speed: -8 as i16, ..FrameData::default() },
            animation_frame: "lblock_0",
            duration: 4,
        },
        MoveData {
            data: FrameData { speed: -4 as i16, ..FrameData::default() },
            animation_frame: "lblock_0",
            duration: 3,
        },
        MoveData {
            data: FrameData { speed: -2 as i16, ..FrameData::default() },
            animation_frame: "lblock_0",
            duration: 2,
        },
        MoveData { data: FrameData::default(), animation_frame: "lblock_0", duration: 2 },
        MoveData { data: FrameData::default(), animation_frame: "lblock_1", duration: 4 },
    ]
}

/// The script of blocking a low attack, as a vector.
pub fn lblock_moves() -> (r: Vec<MoveData>)
    ensures
        r@ == lblock_script(),
{
    let r = vec![
        MoveData {
            data: FrameData { speed: -8 as i16, ..FrameData::default() },
            animation_frame: "lblock_0",
            duration: 4,
        },
        MoveData {
            data: FrameData { speed: -4 as i16, ..FrameData::default() },
            animation_frame: "lblock_0",
            duration: 3,
        },
        MoveData {
            data: FrameData { speed: -2 as i16, ..FrameData::default() },
            animation_frame: "lblock_0",
            duration: 2,
        },
        MoveData { data: FrameData::default(), animation_frame: "lblock_0", duration: 2 },
        MoveData { data: FrameData::default(), animation_frame: "lblock_1", duration: 4 },
    ];
    assert(r@ =~= lblock_script());
    r
}

/// The entry of blocking a low attack active at elapsed frame `frame`, if the move lasts that long.
pub fn lblock_data(frame: u8) -> (r: Option<MoveData>)
    ensures
        r == script_entry(lblock_script(), frame as int),
{
    let moves = lblock_moves();
    lookup(moves.as_slice(), frame)
}

/// The script of staggering after a broken guard.
pub open spec fn guard_break_script() -> Seq<MoveData> {
    seq![
        MoveData {
            data: FrameData {
                speed: -8 as i16,
                hurtbox: [Some(CBox::guard_break_hurtbox()), None],
                ..FrameData::default()
            },
            animation_frame: "guard_break_0",
            duration: 4,
        },
        MoveData {
            data: FrameData {
                speed: -4 as i16,
                hurtbox: [Some(CBox::guard_break_hurtbox()), None],
                ..FrameData::default()
            },
            animation_frame: "guard_break_0",
            duration: 3,
        },
        MoveData {
            data: FrameData {
                speed: -2 as i16,
                hurtbox: [Some(CBox::guard_break_hurtbox()), None],
                ..FrameData::default()
            },
            animation_frame: "guard_break_0",
            duration: 4,
        },
        MoveData {
            data: FrameData {
                hurtbox: [Some(CBox::guard_break_hurtbox()), None],
                ..FrameData::default()
            },
            animation_frame: "guard_break_0",
            duration: 20,
        },
        MoveData { data: FrameData::default(), animation_frame: "guard_break_1", duration: 5 },
    ]
}

/// The script of staggering after a broken guard, as a vector.
pub fn guard_break_moves() -> (r: Vec<MoveData>)
    ensures
        r@ == guard_break_script(),
{
    let r = vec![
        MoveData {
            data: FrameData {
                speed: -8 as i16,
                hurtbox: [Some(CBox::guard_break_hurtbox()), None],
                ..FrameData::default()
            },
            animation_frame: "guard_break_0",
            duration: 4,
        },
        MoveData {
            data: FrameData {
                speed: -4 as i16,
                hurtbox: [Some(CBox::guard_break_hurtbox()), None],
                ..FrameData::default()
            },
            animation_frame: "guard_break_0",
            duration: 3,
        },
        MoveData {
            data: FrameData {
                speed: -2 as i16,
                hurtbox: [Some(CBox::guard_break_hurtbox()), None],
                ..FrameData::default()
            },
            animation_frame: "guard_break_0",
            duration: 4,
        },
        MoveData {
            data: FrameData {
                hurtbox: [Some(CBox::guard_break_hurtbox()), None],
                ..FrameData::default()
            },
            animation_frame: "guard_break_0",
            duration: 20,
        },
        MoveData { data: FrameData::default(), animation_frame: "guard_break_1", duration: 5 },
    ];
    assert(r@ =~= guard_break_script());
    r
}

/// The entry of staggering after a broken guard active at elapsed frame `frame`, if the move lasts that long.
pub fn guard_break_data(frame: u8) -> (r: Option<MoveData>)
    ensures
        r == script_entry(guard_break_script(), frame as int),
{
    let moves = guard_break_moves();
    lookup(moves.as_slice(), frame)
}

/// The single entry of a dead character.
pub open spec fn dead_entry() -> MoveData {
    MoveData { data: FrameData::default(), animation_frame: "dead_0", duration: 1 }
}

/// The frame data of a dead character, the same on every frame.
pub fn dead_data() -> (r: MoveData)
    ensures
        r == dead_entry(),
{
    MoveData { data: FrameData::default(), animation_frame: "dead_0", duration: 1 }
}

/// The script of standing still is well formed and lasts 24 frames.
pub proof fn lemma_idle_script()
    ensures
        script_wf(idle_script()),
        script_len(idle_script()) == 24,
{
    reveal_with_fuel(cumulative, 6);
}

/// The script of walking forward is well formed and lasts 24 frames.
pub proof fn lemma_fwalk_script()
    ensures
        script_wf(fwalk_script()),
        script_len(fwalk_script()) == 24,
{
    reveal_with_fuel(cumulative, 7);
}

/// The script of walking backward is well formed and lasts 24 frames.
pub proof fn lemma_bwalk_script()
    ensures
        script_wf(bwalk_script()),
        script_len(bwalk_script()) == 24,
{
    reveal_with_fuel(cumulative, 7);
}

/// The script of the neutral normal attack (a low poke) is well formed and lasts 23 frames.
pub proof fn lemma_nnormal_script()
    ensures
        script_wf(nnormal_script()),
        script_len(nnormal_script()) == 23,
{
    reveal_with_fuel(cumulative, 7);
}

/// The script of the normal attack made while moving is well formed and lasts 22 frames.
pub proof fn lemma_mnormal_script()
    ensures
        script_wf(mnormal_script()),
        script_len(mnormal_script()) == 22,
{
    reveal_with_fuel(cumulative, 7);
}

/// The script of the neutral special attack (a lunging match-ender) is well formed and lasts 43 frames.
pub proof fn lemma_nspecial_script()
    ensures
        script_wf(nspecial_script()),
        script_len(nspecial_script()) == 43,
{
    reveal_with_fuel(cumulative, 13);
}

/// The script of the special attack made while moving (a match-ender) is well formed and lasts 55 frames.
pub proof fn lemma_mspecial_script()
    ensures
        script_wf(mspecial_script()),
        script_len(mspecial_script()) == 55,
{
    reveal_with_fuel(cumulative, 12);
}

/// The script of the forward dash is well formed and lasts 16 frames.
pub proof fn lemma_fdash_script()
    ensures
        script_wf(fdash_script()),
        script_len(fdash_script()) == 16,
{
    reveal_with_fuel(cumulative, 10);
}

/// The script of the backward dash is well formed and lasts 22 frames.
pub proof fn lemma_bdash_script()
    ensures
        script_wf(bdash_script()),
        script_len(bdash_script()) == 22,
{
    reveal_with_fuel(cumulative, 9);
}

/// The script of reeling from a hit is well formed and lasts 17 frames.
pub proof fn lemma_hit_script()
    ensures
        script_wf(hit_script()),
        script_len(hit_script()) == 17,
{
    reveal_with_fuel(cumulative, 6);
}

/// The script of blocking a high attack is well formed and lasts 15 frames.
pub proof fn lemma_hblock_script()
    ensures
        script_wf(hblock_script()),
        script_len(hblock_script()) == 15,
{
    reveal_with_fuel(cumulative, 6);
}

/// The script of blocking a low attack is well formed and lasts 15 frames.
pub proof fn lemma_lblock_script()
    ensures
        script_wf(lblock_script()),
        script_len(lblock_script()) == 15,
{
    reveal_with_fuel(cumulative, 6);
}

/// The script of staggering after a broken guard is well formed and lasts 36 frames.
pub proof fn lemma_guard_break_script()
    ensures
        script_wf(guard_break_script()),
        script_len(guard_break_script()) == 36,
{
    reveal_with_fuel(cumulative, 6);
}

} // verus!
