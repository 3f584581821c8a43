//! A calibrated servo: shaft angles as pulse widths.
use vstd::prelude::*;

verus! {

pub struct CalibServo {
    min_us: u16,
    max_us: u16,
    /// Total angle in tenths of a degree.
    total_angle: u16,
}

impl CalibServo {
    pub closed spec fn shortest(self) -> u16 {
        self.min_us
    }

    pub closed spec fn longest(self) -> u16 {
        self.max_us
    }

    pub closed spec fn travel(self) -> u16 {
        self.total_angle
    }

    /// A pulse range that is not empty, and a travel that a signed angle can span.
    pub open spec fn wf(self) -> bool {
        self.shortest() < self.longest() && 0 < self.travel() <= 32767
    }

    /// The pulse width at an angle from the lower end: linear over the travel, rounded down.
    pub open spec fn width_at(self, angle_deci: int) -> int {
        self.shortest() + (self.longest() - self.shortest()) * angle_deci / self.travel() as int
    }

    /// The pulse width at an angle from the middle. Angles past either end count as that end.
    pub open spec fn width_from_middle(self, angle_deci: int) -> int {
        let half = self.travel() as int / 2;
        self.width_at(
            if angle_deci > half {
                half + half
            } else if angle_deci < -half {
                0
            } else {
                half + angle_deci
            },
        )
    }

    /// A servo that travels 270 degrees on the full servo pulse range.
    pub fn new_270_deg() -> (r: Self)
        ensures
            r.wf(),
            r.shortest() == 500,
            r.longest() == 2500,
            r.travel() == 2700,
    {
        Self { min_us: 500, max_us: 2500, total_angle: 2700 }
    }

    /// Angle in tenths of a degree to pulse width in microseconds. Angles past the travel count as
    /// its end.
    pub fn unilateral_angle(&self, angle_deci: u16) -> (r: u16)
        requires
            self.wf(),
        ensures
            r == self.width_at(
                if angle_deci > self.travel() {
                    self.travel() as int
                } else {
                    angle_deci as int
                },
            ),
            self.shortest() <= r <= self.longest(),
    {
        let angle: u16 = if angle_deci > self.total_angle {
            self.total_angle
        } else {
            angle_deci
        };
        let span: u32 = (self.max_us - self.min_us) as u32;
        let total: u32 = self.total_angle as u32;
        proof {
            assert(0 <= span * angle <= 65535 * 65535) by (nonlinear_arith)
                requires
                    0 <= span <= 65535,
                    0 <= angle <= 65535,
            ;
            assert(0 <= (span * angle) / total as int <= span) by (nonlinear_arith)
                requires
                    0 <= angle <= total,
                    0 < total,
                    0 <= span,
            ;
        }
        self.min_us + ((span * angle as u32) / total) as u16
    }

    /// Angle in tenths of a degree, centered around the midpoint. Angles past either end count as
    /// that end.
    pub fn bilateral_angle(&self, angle_deci: i16) -> (r: u16)
        requires
            self.wf(),
        ensures
            ({
                let half = self.travel() / 2;
                r == self.width_at(
                    if angle_deci > half {
                        half + half
                    } else if angle_deci < -half {
                        0
                    } else {
                        half + angle_deci
                    },
                )
            }),
            r == self.width_from_middle(angle_deci as int),
            self.shortest() <= r <= self.longest(),
    {
        let half: i16 = (self.total_angle / 2) as i16;
        let angle: i16 = if angle_deci > half {
            half
        } else if angle_deci < -half {
            -half
        } else {
            angle_deci
        };
        let unilateral: u16 = (half + angle) as u16;
        self.unilateral_angle(unilateral)
    }
}

/// A servo's pulse widths run from its shortest at the lower end to its longest at the upper one,
/// and never back.
pub proof fn widths_follow_the_angle(servo: CalibServo, a: int, b: int)
    requires
        servo.wf(),
        0 <= a <= b <= servo.travel(),
    ensures
        servo.width_at(0) == servo.shortest(),
        servo.width_at(servo.travel() as int) == servo.longest(),
        servo.width_at(a) <= servo.width_at(b),
{
    let span = servo.longest() - servo.shortest();
    let total = servo.travel() as int;
    assert(span * total / total == span) by (nonlinear_arith)
        requires
            total > 0,
    ;
    assert(span * 0 / total == 0) by (nonlinear_arith)
        requires
            total > 0,
    ;
    assert(span * a / total <= span * b / total) by (nonlinear_arith)
        requires
            total > 0,
            span > 0,
            a <= b,
    ;
}

/// The pulse width is linear in the angle: it exceeds the shortest by the angle's share of the range,
/// rounded down to a microsecond.
pub proof fn a_width_is_the_angles_share(servo: CalibServo, angle_deci: int)
    requires
        servo.wf(),
    ensures
        ({
            let above = servo.width_at(angle_deci) - servo.shortest();
            above * servo.travel() <= (servo.longest() - servo.shortest()) * angle_deci < (above + 1)
                * servo.travel()
        }),
{
    let n = (servo.longest() - servo.shortest()) * angle_deci;
    let d = servo.travel() as int;
    let q = n / d;
    vstd::arithmetic::div_mod::lemma_fundamental_div_mod(n, d);
    assert(q * d <= n < (q + 1) * d) by (nonlinear_arith)
        requires
            n == d * q + n % d,
            0 <= n % d < d,
    ;
}

/// Seen from the middle a servo turns both ways: the middle is half the travel, further out is never
/// narrower, and past either end there is only the end.
pub proof fn both_ways_from_the_middle(servo: CalibServo, a: int, b: int)
    requires
        servo.wf(),
        a <= b,
    ensures
        servo.width_from_middle(0) == servo.width_at(servo.travel() as int / 2),
        servo.width_from_middle(a) <= servo.width_from_middle(b),
        a <= -(servo.travel() as int / 2) ==> servo.width_from_middle(a) == servo.shortest(),
        b >= servo.travel() as int / 2 ==> servo.width_from_middle(b) == servo.width_at(
            2 * (servo.travel() as int / 2),
        ),
        -(servo.travel() as int / 2) <= a <= servo.travel() as int / 2 ==> servo.width_from_middle(a)
            == servo.width_at(servo.travel() as int / 2 + a),
{
    let half = servo.travel() as int / 2;
    let at = |x: int|
        if x > half {
            half + half
        } else if x < -half {
            0
        } else {
            half + x
        };
    widths_follow_the_angle(servo, at(a), at(b));
    widths_follow_the_angle(servo, 0, at(b));
}

} // verus!
