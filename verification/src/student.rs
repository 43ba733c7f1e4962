//! The student record and the gamification engine.
//!
//! A scrape is a total reset followed by one accumulation pass per course,
//! in fixed course order. All arithmetic is exact: a course mean is the
//! rational `sum_tenths / (10 * count)`, attendance is carried in tenths,
//! and the stored overall mean in hundredths, rounded half up.

use vstd::prelude::*;
use crate::level::{LevelSystem, spec_level_for, lemma_isqrt_unique, lemma_isqrt_monotonic};
use crate::numparse::spec_parse_tenths;
use vstd::arithmetic::div_mod::lemma_fundamental_div_mod;

verus! {

/// One student's record, keyed by username elsewhere. `mean` is the overall
/// mean in hundredths of a grade point; `grades` is ten times the sum of
/// every parsed grade; `assist` is the average attendance percentage.
pub struct Student {
    pub name: String,
    pub assist: u8,
    pub grades: u16,
    pub mean: u32,
    pub exp: u32,
    pub level: u16,
    pub penalty: u8,
    pub bonus: u8,
    pub coins: u32,
}

/// The mathematical value of a record.
#[verifier::ext_equal]
pub ghost struct StudentView {
    pub name: Seq<char>,
    pub assist: int,
    pub grades: int,
    pub mean: int,
    pub exp: int,
    pub level: int,
    pub penalty: int,
    pub bonus: int,
    pub coins: int,
}

impl View for Student {
    type V = StudentView;

    open spec fn view(&self) -> StudentView {
        StudentView {
            name: self.name@,
            assist: self.assist as int,
            grades: self.grades as int,
            mean: self.mean as int,
            exp: self.exp as int,
            level: self.level as int,
            penalty: self.penalty as int,
            bonus: self.bonus as int,
            coins: self.coins as int,
        }
    }
}

impl Student {
    /// The level is never stored out of sync with the experience.
    pub open spec fn wf(self) -> bool {
        self.level == spec_level_for(self.exp as nat)
    }

    /// A fresh record: everything zeroed, level 1, the 100 starting coins.
    pub fn new(name: String) -> (r: Student)
        ensures
            r@ == (StudentView {
                name: name@,
                assist: 0,
                grades: 0,
                mean: 0,
                exp: 0,
                level: 1,
                penalty: 0,
                bonus: 0,
                coins: 100,
            }),
            r.wf(),
    {
        Student {
            name,
            assist: 0,
            grades: 0,
            mean: 0,
            exp: 0,
            level: 1,
            penalty: 0,
            bonus: 0,
            coins: 100,
        }
    }
}

impl Clone for Student {
    fn clone(&self) -> (r: Self)
        ensures
            r == *self,
    {
        Student {
            name: self.name.clone(),
            assist: self.assist,
            grades: self.grades,
            mean: self.mean,
            exp: self.exp,
            level: self.level,
            penalty: self.penalty,
            bonus: self.bonus,
            coins: self.coins,
        }
    }
}

/// Sum, in tenths, of the grade strings that parse; unparseable entries
/// are skipped, never zero-filled.
pub open spec fn spec_course_sum(gs: Seq<Seq<char>>) -> int
    decreases gs.len(),
{
    if gs.len() == 0 {
        0
    } else {
        spec_course_sum(gs.drop_last()) + match spec_parse_tenths(gs.last()) {
            Some(v) => v as int,
            None => 0,
        }
    }
}

/// How many of the grade strings parse.
pub open spec fn spec_course_count(gs: Seq<Seq<char>>) -> int
    decreases gs.len(),
{
    if gs.len() == 0 {
        0
    } else {
        spec_course_count(gs.drop_last()) + match spec_parse_tenths(gs.last()) {
            Some(v) => 1int,
            None => 0,
        }
    }
}

/// A course mean as an exact rational: `sum_tenths / (10 * count)` grade
/// points, or zero when nothing parsed.
pub struct CourseMean {
    pub sum_tenths: u32,
    pub count: u32,
}

/// A mean with no parsed grades counts as an exact zero.
pub open spec fn norm_sum(sum: int, count: int) -> int {
    if count == 0 {
        0
    } else {
        sum
    }
}

pub open spec fn norm_count(count: int) -> int {
    if count == 0 {
        1
    } else {
        count
    }
}

impl Student {
    /// The exact mean of the grade strings that parse as decimals.
    pub fn calculate_course_mean(grades: &Vec<String>) -> (r: CourseMean)
        requires
            grades@.len() <= 100,
        ensures
            r.sum_tenths == spec_course_sum(grades.deep_view()),
            r.count == spec_course_count(grades.deep_view()),
            r.sum_tenths <= 1000 * r.count,
            r.count <= grades@.len(),
    {
        let ghost gv = grades.deep_view();
        let mut sum: u32 = 0;
        let mut count: u32 = 0;
        let mut i: usize = 0;
        proof {
            assert(gv.subrange(0, 0) =~= Seq::<Seq<char>>::empty());
        }
        while i < grades.len()
            invariant
                i <= grades@.len() <= 100,
                gv == grades.deep_view(),
                gv.len() == grades@.len(),
                sum == spec_course_sum(gv.subrange(0, i as int)),
                count == spec_course_count(gv.subrange(0, i as int)),
                sum <= 1000 * count,
                count <= i,
            decreases grades@.len() - i,
        {
            proof {
                assert(gv.subrange(0, i + 1).drop_last() =~= gv.subrange(0, i as int));
                assert(gv.subrange(0, i + 1).last() == gv[i as int]);
                assert(gv[i as int] == grades@[i as int]@);
            }
            proof {
                crate::numparse::lemma_parse_tenths_bound(grades@[i as int]@);
            }
            match crate::numparse::parse_tenths(grades[i].as_str()) {
                Some(v) => {
                    sum = sum + v;
                    count = count + 1;
                },
                None => {},
            }
            i = i + 1;
        }
        proof {
            assert(gv.subrange(0, gv.len() as int) =~= gv);
        }
        CourseMean { sum_tenths: sum, count }
    }
}

/// The rounded base experience for one course:
/// `round(max(0, ((mean - 1) / 6) * 50 + (attendance / 100) * 50))`,
/// written over tenths as `(50 * (s - 10 * c) + 3 * c * a) / (60 * c)`
/// and rounded half up.
pub open spec fn spec_course_base(s: int, c: int, a: int) -> int {
    let num = 50 * (s - 10 * c) + 3 * c * a;
    if num <= 0 {
        0
    } else {
        (2 * num + 60 * c) / (120 * c)
    }
}

/// How many bonus thresholds fire for one course; the 90% attendance
/// threshold counts twice.
pub open spec fn spec_course_bonus(s: int, c: int, a: int) -> int {
    (if s >= 55 * c { 1int } else { 0 })
    + (if s >= 60 * c { 1int } else { 0 })
    + (if s >= 65 * c { 1int } else { 0 })
    + (if a >= 800 { 1int } else { 0 })
    + (if a >= 850 { 1int } else { 0 })
    + (if a >= 900 { 2int } else { 0 })
}

/// How many penalty thresholds fire for one course.
pub open spec fn spec_course_penalty(s: int, c: int, a: int) -> int {
    (if s < 45 * c { 1int } else { 0 }) + (if a < 650 { 1int } else { 0 })
}

/// The experience one course is worth: the rounded base, plus the
/// cumulative bonus amounts, each penalty then deducting 125 but never
/// below zero.
pub open spec fn spec_course_gained(s: int, c: int, a: int) -> int {
    let b = spec_course_base(s, c, a)
        + (if s >= 55 * c { 100int } else { 0 })
        + (if s >= 60 * c { 200int } else { 0 })
        + (if s >= 65 * c { 350int } else { 0 })
        + (if a >= 800 { 225int } else { 0 })
        + (if a >= 850 { 100int } else { 0 })
        + (if a >= 900 { 225int } else { 0 });
    let b2 = if s < 45 * c {
        if b >= 125 { b - 125 } else { 0 }
    } else {
        b
    };
    if a < 650 {
        if b2 >= 125 { b2 - 125 } else { 0 }
    } else {
        b2
    }
}

pub proof fn lemma_course_base_bound(s: int, c: int, a: int)
    requires
        1 <= c,
        0 <= s <= 1000 * c,
        0 <= a <= 1000,
    ensures
        0 <= spec_course_base(s, c, a) <= 876,
{
    let num = 50 * (s - 10 * c) + 3 * c * a;
    assert(3 * c * a <= 3000 * c) by (nonlinear_arith)
        requires 1 <= c, 0 <= a <= 1000,
    ;
    assert(50 * s <= 50000 * c) by (nonlinear_arith)
        requires s <= 1000 * c,
    ;
    assert(num <= 52500 * c);
    if num > 0 {
        let q = (2 * num + 60 * c) / (120 * c);
        lemma_fundamental_div_mod(2 * num + 60 * c, 120 * c);
        assert(0 <= q <= 876) by (nonlinear_arith)
            requires
                1 <= c,
                0 < num <= 52500 * c,
                2 * num + 60 * c == 120 * c * q + (2 * num + 60 * c) % (120 * c),
                0 <= (2 * num + 60 * c) % (120 * c) < 120 * c,
        ;
    }
}

pub proof fn lemma_course_gained_bound(s: int, c: int, a: int)
    requires
        1 <= c,
        0 <= s <= 1000 * c,
        0 <= a <= 1000,
    ensures
        0 <= spec_course_gained(s, c, a) <= 2076,
{
    lemma_course_base_bound(s, c, a);
}

/// The level stays small while the experience stays small.
pub proof fn lemma_level_bound(exp: nat)
    requires
        exp <= 60_000,
    ensures
        spec_level_for(exp) <= 176,
{
    if 100 <= exp {
        lemma_isqrt_monotonic(exp / 2, 30_000);
        assert(173 * 173 == 29929nat) by (nonlinear_arith);
        assert(174 * 174 == 30276nat) by (nonlinear_arith);
        lemma_isqrt_unique(30_000, 173);
    }
}

/// One course applied to a record: experience, bonus and penalty counters
/// accumulate, the level is recomputed, and coins grow by
/// `(level * 2 + gained / 10) * exp / 100` over the cumulative experience.
pub open spec fn spec_apply_course(v: StudentView, s: int, c: int, a: int) -> StudentView {
    let gained = spec_course_gained(s, c, a);
    let exp = v.exp + gained;
    let level = spec_level_for(exp as nat) as int;
    let coin_bonus = level * 2 + gained / 10;
    StudentView {
        exp,
        level,
        bonus: v.bonus + spec_course_bonus(s, c, a),
        penalty: v.penalty + spec_course_penalty(s, c, a),
        coins: v.coins + (coin_bonus * exp) / 100,
        ..v
    }
}

impl Student {
    /// Apply one course's mean and attendance (in tenths) to the record.
    #[verifier::rlimit(60)]
    pub fn apply_course_gamification(
        &mut self,
        mean: CourseMean,
        attendance_tenths: u32,
        level_system: &LevelSystem,
    )
        requires
            attendance_tenths <= 1000,
            mean.count <= 100,
            mean.sum_tenths <= 1000 * mean.count,
            old(self).exp <= 50_000,
            old(self).bonus <= 200,
            old(self).penalty <= 200,
            old(self).coins <= 100_000_000,
        ensures
            final(self)@ == spec_apply_course(
                old(self)@,
                norm_sum(mean.sum_tenths as int, mean.count as int),
                norm_count(mean.count as int),
                attendance_tenths as int,
            ),
            final(self).wf(),
            final(self).exp <= old(self).exp + 2076,
            final(self).bonus <= old(self).bonus + 7,
            final(self).penalty <= old(self).penalty + 2,
            final(self).coins <= old(self).coins + 300_000,
    {
        let ghost s_spec = norm_sum(mean.sum_tenths as int, mean.count as int);
        let ghost c_spec = norm_count(mean.count as int);
        let s: u64 = if mean.count == 0 { 0 } else { mean.sum_tenths as u64 };
        let c: u64 = if mean.count == 0 { 1 } else { mean.count as u64 };
        let a: u64 = attendance_tenths as u64;
        proof {
            lemma_course_base_bound(s_spec, c_spec, a as int);
            lemma_course_gained_bound(s_spec, c_spec, a as int);
        }

        proof {
            assert(3 * (c as int) * (a as int) <= 300_000) by (nonlinear_arith)
                requires 0 <= c as int <= 100, 0 <= a as int <= 1000,
            ;
        }
        let num: i64 = 50 * (s as i64 - 10 * c as i64) + 3 * c as i64 * a as i64;
        let base: u64 = if num <= 0 {
            0
        } else {
            (2 * num as u64 + 60 * c) / (120 * c)
        };
        let mut gained: u32 = base as u32;

        if s >= 55 * c {
            gained = gained + 100;
            self.bonus = self.bonus + 1;
        }
        if s >= 60 * c {
            gained = gained + 200;
            self.bonus = self.bonus + 1;
        }
        if s >= 65 * c {
            gained = gained + 350;
            self.bonus = self.bonus + 1;
        }
        if a >= 800 {
            gained = gained + 225;
            self.bonus = self.bonus + 1;
        }
        if a >= 850 {
            gained = gained + 100;
            self.bonus = self.bonus + 1;
        }
        if a >= 900 {
            gained = gained + 225;
            self.bonus = self.bonus + 2;
        }
        if s < 45 * c {
            gained = if gained >= 125 { gained - 125 } else { 0 };
            self.penalty = self.penalty + 1;
        }
        if a < 650 {
            gained = if gained >= 125 { gained - 125 } else { 0 };
            self.penalty = self.penalty + 1;
        }
        assert(gained == spec_course_gained(s_spec, c_spec, a as int));

        self.exp = self.exp + gained;
        self.level = level_system.level_for_exp(self.exp);
        proof {
            lemma_level_bound(self.exp as nat);
        }
        let coin_bonus: u32 = (self.level as u32) * 2 + gained / 10;
        proof {
            assert((coin_bonus as int) * (self.exp as int) <= 559 * 52_076) by (nonlinear_arith)
                requires 0 <= coin_bonus as int <= 559, 0 <= self.exp as int <= 52_076,
            ;
        }
        self.coins = self.coins + (coin_bonus * self.exp) / 100;
    }
}

/// The overall mean, in hundredths, rounded half up: the unweighted
/// average of the four exact course means `s_i / (10 * c_i)`.
pub open spec fn spec_overall_mean_centi(
    s1: int, c1: int, s2: int, c2: int, s3: int, c3: int, s4: int, c4: int,
) -> int {
    let np = s1 * c2 * c3 * c4 + s2 * c1 * c3 * c4 + s3 * c1 * c2 * c4 + s4 * c1 * c2 * c3;
    let d = c1 * c2 * c3 * c4;
    (5 * np + d) / (2 * d)
}

pub proof fn lemma_overall_mean_bound(
    s1: int, c1: int, s2: int, c2: int, s3: int, c3: int, s4: int, c4: int,
)
    requires
        1 <= c1 <= 100, 1 <= c2 <= 100, 1 <= c3 <= 100, 1 <= c4 <= 100,
        0 <= s1 <= 1000 * c1, 0 <= s2 <= 1000 * c2,
        0 <= s3 <= 1000 * c3, 0 <= s4 <= 1000 * c4,
    ensures
        0 <= spec_overall_mean_centi(s1, c1, s2, c2, s3, c3, s4, c4) <= 10_000,
{
    let np = s1 * c2 * c3 * c4 + s2 * c1 * c3 * c4 + s3 * c1 * c2 * c4 + s4 * c1 * c2 * c3;
    let d = c1 * c2 * c3 * c4;
    assert(1 <= d && 0 <= np <= 4000 * d) by (nonlinear_arith)
        requires
            1 <= c1 <= 100, 1 <= c2 <= 100, 1 <= c3 <= 100, 1 <= c4 <= 100,
            0 <= s1 <= 1000 * c1, 0 <= s2 <= 1000 * c2,
            0 <= s3 <= 1000 * c3, 0 <= s4 <= 1000 * c4,
            np == s1 * c2 * c3 * c4 + s2 * c1 * c3 * c4 + s3 * c1 * c2 * c4 + s4 * c1 * c2 * c3,
            d == c1 * c2 * c3 * c4,
    ;
    let q = (5 * np + d) / (2 * d);
    lemma_fundamental_div_mod(5 * np + d, 2 * d);
    assert(0 <= q <= 10_000) by (nonlinear_arith)
        requires
            1 <= d,
            0 <= np <= 4000 * d,
            5 * np + d == 2 * d * q + (5 * np + d) % (2 * d),
            0 <= (5 * np + d) % (2 * d) < 2 * d,
    ;
}

/// A whole scrape applied to a record: total reset, the four courses in
/// fixed order, then the overall mean, grade points and attendance. Grade
/// points are ten times the sum of every parsed grade, saturated to `u16`;
/// the stored attendance is the truncated average percentage.
pub open spec fn spec_apply_full(
    v: StudentView,
    g1: Seq<Seq<char>>, a1: int,
    g2: Seq<Seq<char>>, a2: int,
    g3: Seq<Seq<char>>, a3: int,
    g4: Seq<Seq<char>>, a4: int,
) -> StudentView {
    let s1 = norm_sum(spec_course_sum(g1), spec_course_count(g1));
    let c1 = norm_count(spec_course_count(g1));
    let s2 = norm_sum(spec_course_sum(g2), spec_course_count(g2));
    let c2 = norm_count(spec_course_count(g2));
    let s3 = norm_sum(spec_course_sum(g3), spec_course_count(g3));
    let c3 = norm_count(spec_course_count(g3));
    let s4 = norm_sum(spec_course_sum(g4), spec_course_count(g4));
    let c4 = norm_count(spec_course_count(g4));
    let reset = StudentView { exp: 0, level: 1, penalty: 0, bonus: 0, coins: 100, ..v };
    let v4 = spec_apply_course(
        spec_apply_course(
            spec_apply_course(
                spec_apply_course(reset, s1, c1, a1),
                s2, c2, a2,
            ),
            s3, c3, a3,
        ),
        s4, c4, a4,
    );
    let t = spec_course_sum(g1) + spec_course_sum(g2) + spec_course_sum(g3) + spec_course_sum(g4);
    StudentView {
        mean: spec_overall_mean_centi(s1, c1, s2, c2, s3, c3, s4, c4),
        grades: if t > 65535 { 65535 } else { t },
        assist: (a1 + a2 + a3 + a4) / 40,
        ..v4
    }
}

impl Student {
    /// One full scrape pass: reset the gamified fields, then fold in the
    /// four tracked courses in fixed order and store the aggregates.
    #[verifier::rlimit(80)]
    pub fn apply_full_gamification(
        &mut self,
        electivo_grades: &Vec<String>,
        electivo_attendance: u32,
        habilidades_grades: &Vec<String>,
        habilidades_attendance: u32,
        algebralineal_grades: &Vec<String>,
        algebralineal_attendance: u32,
        calculointegral_grades: &Vec<String>,
        calculointegral_attendance: u32,
        level_system: &LevelSystem,
    )
        requires
            electivo_grades@.len() <= 100,
            habilidades_grades@.len() <= 100,
            algebralineal_grades@.len() <= 100,
            calculointegral_grades@.len() <= 100,
            electivo_attendance <= 1000,
            habilidades_attendance <= 1000,
            algebralineal_attendance <= 1000,
            calculointegral_attendance <= 1000,
        ensures
            final(self)@ == spec_apply_full(
                old(self)@,
                electivo_grades.deep_view(), electivo_attendance as int,
                habilidades_grades.deep_view(), habilidades_attendance as int,
                algebralineal_grades.deep_view(), algebralineal_attendance as int,
                calculointegral_grades.deep_view(), calculointegral_attendance as int,
            ),
            final(self).wf(),
    {
        self.exp = 0;
        self.level = 1;
        self.penalty = 0;
        self.bonus = 0;
        self.coins = 100;
        proof {
            crate::level::lemma_isqrt_bounds(0);
        }

        let m1 = Self::calculate_course_mean(electivo_grades);
        let m2 = Self::calculate_course_mean(habilidades_grades);
        let m3 = Self::calculate_course_mean(algebralineal_grades);
        let m4 = Self::calculate_course_mean(calculointegral_grades);

        self.apply_course_gamification(
            CourseMean { sum_tenths: m1.sum_tenths, count: m1.count },
            electivo_attendance,
            level_system,
        );
        self.apply_course_gamification(
            CourseMean { sum_tenths: m2.sum_tenths, count: m2.count },
            habilidades_attendance,
            level_system,
        );
        self.apply_course_gamification(
            CourseMean { sum_tenths: m3.sum_tenths, count: m3.count },
            algebralineal_attendance,
            level_system,
        );
        self.apply_course_gamification(
            CourseMean { sum_tenths: m4.sum_tenths, count: m4.count },
            calculointegral_attendance,
            level_system,
        );

        let s1: u64 = if m1.count == 0 { 0 } else { m1.sum_tenths as u64 };
        let c1: u64 = if m1.count == 0 { 1 } else { m1.count as u64 };
        let s2: u64 = if m2.count == 0 { 0 } else { m2.sum_tenths as u64 };
        let c2: u64 = if m2.count == 0 { 1 } else { m2.count as u64 };
        let s3: u64 = if m3.count == 0 { 0 } else { m3.sum_tenths as u64 };
        let c3: u64 = if m3.count == 0 { 1 } else { m3.count as u64 };
        let s4: u64 = if m4.count == 0 { 0 } else { m4.sum_tenths as u64 };
        let c4: u64 = if m4.count == 0 { 1 } else { m4.count as u64 };
        proof {
            let si1 = s1 as int; let ci1 = c1 as int;
            let si2 = s2 as int; let ci2 = c2 as int;
            let si3 = s3 as int; let ci3 = c3 as int;
            let si4 = s4 as int; let ci4 = c4 as int;
            assert(si1 * ci2 <= 10_000_000 && si1 * ci2 * ci3 <= 1_000_000_000
                && si1 * ci2 * ci3 * ci4 <= 100_000_000_000
                && 0 <= si1 * ci2 * ci3 * ci4) by (nonlinear_arith)
                requires 0 <= si1 <= 100_000, 1 <= ci2 <= 100, 1 <= ci3 <= 100, 1 <= ci4 <= 100,
            ;
            assert(si2 * ci1 <= 10_000_000 && si2 * ci1 * ci3 <= 1_000_000_000
                && si2 * ci1 * ci3 * ci4 <= 100_000_000_000
                && 0 <= si2 * ci1 * ci3 * ci4) by (nonlinear_arith)
                requires 0 <= si2 <= 100_000, 1 <= ci1 <= 100, 1 <= ci3 <= 100, 1 <= ci4 <= 100,
            ;
            assert(si3 * ci1 <= 10_000_000 && si3 * ci1 * ci2 <= 1_000_000_000
                && si3 * ci1 * ci2 * ci4 <= 100_000_000_000
                && 0 <= si3 * ci1 * ci2 * ci4) by (nonlinear_arith)
                requires 0 <= si3 <= 100_000, 1 <= ci1 <= 100, 1 <= ci2 <= 100, 1 <= ci4 <= 100,
            ;
            assert(si4 * ci1 <= 10_000_000 && si4 * ci1 * ci2 <= 1_000_000_000
                && si4 * ci1 * ci2 * ci3 <= 100_000_000_000
                && 0 <= si4 * ci1 * ci2 * ci3) by (nonlinear_arith)
                requires 0 <= si4 <= 100_000, 1 <= ci1 <= 100, 1 <= ci2 <= 100, 1 <= ci3 <= 100,
            ;
            assert(1 <= ci1 * ci2 <= 10_000 && 1 <= ci1 * ci2 * ci3 <= 1_000_000
                && 1 <= ci1 * ci2 * ci3 * ci4 <= 100_000_000) by (nonlinear_arith)
                requires 1 <= ci1 <= 100, 1 <= ci2 <= 100, 1 <= ci3 <= 100, 1 <= ci4 <= 100,
            ;
            lemma_overall_mean_bound(si1, ci1, si2, ci2, si3, ci3, si4, ci4);
        }
        let np: u64 = s1 * c2 * c3 * c4 + s2 * c1 * c3 * c4 + s3 * c1 * c2 * c4
            + s4 * c1 * c2 * c3;
        let d: u64 = c1 * c2 * c3 * c4;
        self.mean = ((5 * np + d) / (2 * d)) as u32;

        let t: u32 = m1.sum_tenths + m2.sum_tenths + m3.sum_tenths + m4.sum_tenths;
        self.grades = if t > 65535 { 65535 } else { t as u16 };

        self.assist = ((electivo_attendance + habilidades_attendance
            + algebralineal_attendance + calculointegral_attendance) / 40) as u8;
    }
}

/// A scrape is a total reset and recompute: running it on a record that
/// has already been scraped with the same upstream data changes nothing.
pub proof fn lemma_full_gamification_idempotent(
    v: StudentView,
    g1: Seq<Seq<char>>, a1: int,
    g2: Seq<Seq<char>>, a2: int,
    g3: Seq<Seq<char>>, a3: int,
    g4: Seq<Seq<char>>, a4: int,
)
    ensures
        spec_apply_full(
            spec_apply_full(v, g1, a1, g2, a2, g3, a3, g4, a4),
            g1, a1, g2, a2, g3, a3, g4, a4,
        ) == spec_apply_full(v, g1, a1, g2, a2, g3, a3, g4, a4),
{
    let once = spec_apply_full(v, g1, a1, g2, a2, g3, a3, g4, a4);
    let twice = spec_apply_full(once, g1, a1, g2, a2, g3, a3, g4, a4);
    assert(twice =~= once);
}

} // verus!
