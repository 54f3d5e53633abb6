//! Sine and cosine from a precomputed table with half-step interpolation.

use vstd::prelude::*;

use crate::angle::Angle;

verus! {

/// 2 to the power `n`.
pub open spec fn two_to(n: nat) -> nat
    decreases n,
{
    if n == 0 {
        1
    } else {
        2 * two_to((n - 1) as nat)
    }
}

/// How much of a turn the table covers.
#[derive(Clone, Copy, Debug, PartialEq, Eq, Structural)]
pub enum SineTableSpan {
    /// A quarter turn, mirrored and negated to cover the other three.
    QuarterTurn,
    /// A full turn.
    FullTurn,
}

/// Errors in the configuration of a table or of the projection.
#[derive(Clone, Copy, Debug, PartialEq, Eq, Structural)]
pub enum ConfigurationError {
    SineLookupResolution,
    SineLookupSize,
    SineLookupEntry,
    CanvasWidth,
    CanvasHeight,
    AspectRatioOverflow,
    FieldOfView,
}

/// Whether `msbs` is an allowed table resolution for the span.
pub open spec fn valid_resolution(span: SineTableSpan, msbs: u8) -> bool {
    match span {
        SineTableSpan::QuarterTurn => 6 <= msbs <= 14,
        SineTableSpan::FullTurn => 8 <= msbs <= 16,
    }
}

/// Number of angle steps that share one table entry.
pub open spec fn entry_steps(span: SineTableSpan, msbs: u8) -> nat {
    match span {
        SineTableSpan::QuarterTurn => two_to((14 - msbs) as nat),
        SineTableSpan::FullTurn => two_to((16 - msbs) as nat),
    }
}

/// Whether bit `half` of the step count `a` is set, where `half` is half the
/// steps of one entry (never for the finest tables, where one entry is one step).
pub open spec fn halfway(a: int, steps: nat) -> bool {
    steps >= 2 && (a / (steps / 2) as int) % 2 == 1
}

/// `t` moved half the way toward `u`, rounding down.
pub open spec fn half_toward(t: int, u: int) -> int {
    t + (u - t) / 2
}

/// The sine, as raw `I1F15` bits, that a table gives for an angle of `a` steps.
pub open spec fn table_sine(entries: Seq<i16>, span: SineTableSpan, msbs: u8, a: int) -> int {
    let steps = entry_steps(span, msbs);
    let n = entries.len() as int;
    match span {
        SineTableSpan::QuarterTurn => {
            let idx = (a % 0x4000) / steps as int;
            let mirrored = (a / 0x4000) % 2 == 1;
            let i = if mirrored { n - 1 - idx } else { idx };
            let has_next = if mirrored { i != 0 } else { i != n - 1 };
            let j = if mirrored { i - 1 } else { i + 1 };
            let v = if halfway(a, steps) && has_next {
                half_toward(entries[i] as int, entries[j] as int)
            } else {
                entries[i] as int
            };
            if a >= 0x8000 { -v } else { v }
        },
        SineTableSpan::FullTurn => {
            let i = a / steps as int;
            let j = if i == n - 1 { 0 } else { i + 1 };
            if halfway(a, steps) {
                half_toward(entries[i] as int, entries[j] as int)
            } else {
                entries[i] as int
            }
        },
    }
}

/// Sine and cosine of angles as raw `I1F15` bits in `(-1, 1)`.
pub trait Trigonometry {
    spec fn ready(&self) -> bool;

    /// The sine given for `angle`.
    spec fn sine_of(&self, angle: Angle) -> int;

    /// The cosine given for `angle`.
    spec fn cosine_of(&self, angle: Angle) -> int;

    fn sine(&self, angle: Angle) -> (r: i16)
        requires
            self.ready(),
        ensures
            r as int == self.sine_of(angle),
            r != i16::MIN,
    ;

    fn cosine(&self, angle: Angle) -> (r: i16)
        requires
            self.ready(),
        ensures
            r as int == self.cosine_of(angle),
            r != i16::MIN,
    ;
}

/// A sine lookup table of `2^msbs` entries spread evenly over its span.
#[derive(Debug)]
pub struct SineTable {
    entries: Vec<i16>,
    span: SineTableSpan,
    msbs: u8,
    steps: u16,
}

proof fn lemma_two_to_pos(n: nat)
    ensures
        two_to(n) >= 1,
    decreases n,
{
    if n > 0 {
        lemma_two_to_pos((n - 1) as nat);
    }
}

proof fn lemma_two_to_adds(a: nat, b: nat)
    ensures
        two_to(a) * two_to(b) == two_to(a + b),
    decreases a,
{
    if a > 0 {
        let a1 = (a - 1) as nat;
        lemma_two_to_adds(a1, b);
        assert(two_to(a1 + b) == two_to(a1) * two_to(b));
        assert(a + b == (a1 + b) + 1);
        assert(two_to(a + b) == 2 * two_to(a1 + b));
        assert(two_to(a) == 2 * two_to(a1));
        assert(two_to(a) * two_to(b) == 2 * (two_to(a1) * two_to(b))) by (nonlinear_arith)
            requires two_to(a) == 2 * two_to(a1);
        assert(two_to(a) * two_to(b) == two_to(a + b));
    } else {
        assert(two_to(a) == 1);
        assert(two_to(a) * two_to(b) == two_to(b));
    }
}

proof fn lemma_two_to_bounds(n: nat)
    ensures
        two_to(n) >= 1,
        n <= 16 ==> two_to(n) <= 0x1_0000,
{
    lemma_two_to_pos(n);
    if n <= 16 {
        lemma_two_to_adds(n, (16 - n) as nat);
        lemma_two_to_pos((16 - n) as nat);
        lemma_two_to_spans();
        assert(two_to(n) <= 0x1_0000) by (nonlinear_arith)
            requires two_to(n) * two_to((16 - n) as nat) == 0x1_0000, two_to((16 - n) as nat) >= 1;
    }
}

proof fn lemma_two_to_spans()
    ensures
        two_to(14) == 0x4000,
        two_to(16) == 0x1_0000,
{
    reveal_with_fuel(two_to, 17);
}

fn half_toward_exec(t: i16, u: i16) -> (r: i16)
    requires
        t != i16::MIN,
        u != i16::MIN,
    ensures
        r as int == half_toward(t as int, u as int),
        r != i16::MIN,
{
    let d: i32 = u as i32 - t as i32;
    let h: i32 = if d >= 0 {
        d / 2
    } else {
        -((1 - d) / 2)
    };
    (t as i32 + h) as i16
}

/// 2 to the power `n`, for `n` up to 16.
fn exec_two_to(n: u8) -> (r: u32)
    requires
        n <= 16,
    ensures
        r as nat == two_to(n as nat),
{
    let mut r: u32 = 1;
    let mut i: u8 = 0;
    while i < n
        invariant
            i <= n <= 16,
            r as nat == two_to(i as nat),
        decreases n - i,
    {
        proof {
            lemma_two_to_bounds(i as nat);
        }
        r = r * 2;
        i = i + 1;
    }
    r
}

impl SineTable {
    pub closed spec fn entries(&self) -> Seq<i16> {
        self.entries@
    }

    pub closed spec fn span(&self) -> SineTableSpan {
        self.span
    }

    pub closed spec fn msbs(&self) -> u8 {
        self.msbs
    }

    /// The table's shape agrees with its resolution and span, and no entry is
    /// -1 (whose negation does not fit).
    pub closed spec fn wf(&self) -> bool {
        &&& valid_resolution(self.span, self.msbs)
        &&& self.entries@.len() == two_to(self.msbs as nat)
        &&& self.steps as nat == entry_steps(self.span, self.msbs)
        &&& forall|i: int| 0 <= i < self.entries@.len() ==> self.entries@[i] != i16::MIN
    }

    /// A table of `entries`, raw `I1F15` sines at evenly spaced angles over
    /// `span`, indexed by the top `msbs` bits of an angle.
    pub fn new(span: SineTableSpan, msbs: u8, entries: Vec<i16>) -> (r: Result<SineTable, ConfigurationError>)
        ensures
            r is Err <==> (!valid_resolution(span, msbs) || entries@.len() != two_to(msbs as nat)
                || exists|i: int| 0 <= i < entries@.len() && entries@[i] == i16::MIN),
            r matches Err(e) ==> (e == ConfigurationError::SineLookupResolution <==> !valid_resolution(span, msbs)),
            r matches Err(e) ==> (e == ConfigurationError::SineLookupSize <==> valid_resolution(span, msbs)
                && entries@.len() != two_to(msbs as nat)),
            r matches Ok(t) ==> t.wf() && t.entries() == entries@ && t.span() == span && t.msbs() == msbs,
    {
        let ok_resolution = match span {
            SineTableSpan::QuarterTurn => 6 <= msbs && msbs <= 14,
            SineTableSpan::FullTurn => 8 <= msbs && msbs <= 16,
        };
        if !ok_resolution {
            return Err(ConfigurationError::SineLookupResolution);
        }
        let size = exec_two_to(msbs);
        proof {
            lemma_two_to_bounds(msbs as nat);
        }
        if entries.len() != size as usize {
            return Err(ConfigurationError::SineLookupSize);
        }
        let mut k: usize = 0;
        while k < entries.len()
            invariant
                0 <= k <= entries@.len(),
                valid_resolution(span, msbs),
                entries@.len() == two_to(msbs as nat),
                forall|i: int| 0 <= i < k ==> entries@[i] != i16::MIN,
            decreases entries@.len() - k,
        {
            if entries[k] == i16::MIN {
                return Err(ConfigurationError::SineLookupEntry);
            }
            k = k + 1;
        }
        let shift: u8 = match span {
            SineTableSpan::QuarterTurn => 14 - msbs,
            SineTableSpan::FullTurn => 16 - msbs,
        };
        let steps = exec_two_to(shift);
        proof {
            lemma_two_to_adds(shift as nat, msbs as nat);
            lemma_two_to_bounds(msbs as nat);
            lemma_two_to_spans();
            assert(msbs >= 1 ==> two_to(msbs as nat) == 2 * two_to((msbs - 1) as nat));
            lemma_two_to_bounds((msbs - 1) as nat);
        }
        assert(steps <= 0xffff) by (nonlinear_arith)
            requires steps as int * two_to(msbs as nat) <= 0x1_0000, two_to(msbs as nat) >= 2;
        Ok(SineTable { entries, span, msbs, steps: steps as u16 })
    }

    pub fn span_kind(&self) -> (r: SineTableSpan)
        ensures
            r == self.span(),
    {
        self.span
    }

    pub fn resolution_bits(&self) -> (r: u8)
        ensures
            r == self.msbs(),
    {
        self.msbs
    }

    fn sine_steps(&self, a: u16) -> (r: i16)
        requires
            self.wf(),
        ensures
            r as int == table_sine(self.entries(), self.span(), self.msbs(), a as int),
            r != i16::MIN,
    {
        let steps = self.steps;
        let n = self.entries.len();
        let halfway = steps >= 2 && (a / (steps / 2)) % 2 == 1;
        proof {
            lemma_two_to_adds((if self.span == SineTableSpan::QuarterTurn { 14 - self.msbs } else { 16 - self.msbs }) as nat, self.msbs as nat);
            lemma_two_to_bounds(self.msbs as nat);
            lemma_two_to_spans();
        }
        match self.span {
            SineTableSpan::QuarterTurn => {
                assert(steps as int * n == 0x4000);
                let idx: usize = ((a % 0x4000) / steps) as usize;
                assert(idx < n) by (nonlinear_arith)
                    requires idx == (a as int % 0x4000) / steps as int, steps as int * n == 0x4000, steps >= 1, (a as int % 0x4000) < 0x4000;
                let mirrored = (a / 0x4000) % 2 == 1;
                let i: usize = if mirrored { n - 1 - idx } else { idx };
                let has_next = if mirrored { i != 0 } else { i != n - 1 };
                let t = self.entries[i];
                let v: i16 = if halfway && has_next {
                    let j: usize = if mirrored { i - 1 } else { i + 1 };
                    half_toward_exec(t, self.entries[j])
                } else {
                    t
                };
                if a >= 0x8000 { -v } else { v }
            },
            SineTableSpan::FullTurn => {
                assert(steps as int * n == 0x1_0000);
                let i: usize = (a / steps) as usize;
                assert(i < n) by (nonlinear_arith)
                    requires i == a as int / steps as int, steps as int * n == 0x1_0000, steps >= 1, a < 0x1_0000;
                let t = self.entries[i];
                if halfway {
                    let j: usize = if i == n - 1 { 0 } else { i + 1 };
                    half_toward_exec(t, self.entries[j])
                } else {
                    t
                }
            },
        }
    }
}

impl Trigonometry for SineTable {
    open spec fn ready(&self) -> bool {
        self.wf()
    }

    /// The table's entry for the angle, folded into the table's span and
    /// moved half a step toward the next entry where the angle lies halfway.
    open spec fn sine_of(&self, angle: Angle) -> int {
        table_sine(self.entries(), self.span(), self.msbs(), angle@)
    }

    /// The sine a quarter turn on.
    open spec fn cosine_of(&self, angle: Angle) -> int {
        table_sine(self.entries(), self.span(), self.msbs(), (angle@ + 0x4000) % 0x1_0000)
    }

    fn sine(&self, angle: Angle) -> (r: i16) {
        self.sine_steps(angle.steps())
    }

    fn cosine(&self, angle: Angle) -> (r: i16) {
        let on = angle.add(Angle::from_steps(0x4000));
        self.sine_steps(on.steps())
    }
}

} // verus!
