//! Canonical enchant book appraisal and the embedded-enchant value accumulator.
use vstd::prelude::*;

verus! {

pub const BOOK_APPRAISAL_BASE: i128 = 60_000;
pub const MULTIPLIER_DENOMINATOR: i128 = 100;
pub const EMBEDDED_VALUE_NUMERATOR: i128 = 70;
pub const EMBEDDED_VALUE_DENOMINATOR: i128 = 100;

/// Largest canonical book value: Mythic (weight 20) at Level X (x120.00).
pub open spec fn max_book_value() -> int {
    144_000_000
}

#[derive(Clone, Copy, Debug, PartialEq, Eq, Structural)]
pub enum EnchantAppraisalClass {
    ShopCommon,
    FishingChestMidHigh,
    FishingChestRare,
    Mending,
    Mythic,
    SpecialCommon,
    SpecialMid,
    SpecialRare,
}

/// Frozen acquisition weight of each appraisal class.
pub open spec fn spec_class_weight(class: EnchantAppraisalClass) -> int {
    match class {
        EnchantAppraisalClass::ShopCommon => 1,
        EnchantAppraisalClass::FishingChestMidHigh => 3,
        EnchantAppraisalClass::FishingChestRare => 8,
        EnchantAppraisalClass::Mending => 8,
        EnchantAppraisalClass::Mythic => 20,
        EnchantAppraisalClass::SpecialCommon => 2,
        EnchantAppraisalClass::SpecialMid => 5,
        EnchantAppraisalClass::SpecialRare => 12,
    }
}

impl EnchantAppraisalClass {
    fn weight(self) -> (r: i128)
        ensures
            r == spec_class_weight(self),
            1 <= r <= 20,
    {
        match self {
            Self::ShopCommon => 1,
            Self::FishingChestMidHigh => 3,
            Self::FishingChestRare | Self::Mending => 8,
            Self::Mythic => 20,
            Self::SpecialCommon => 2,
            Self::SpecialMid => 5,
            Self::SpecialRare => 12,
        }
    }
}

#[derive(Clone, Copy, Debug, PartialEq, Eq, Structural)]
pub struct EmbeddedEnchantAppraisalInput {
    pub class: EnchantAppraisalClass,
    pub level: u8,
}

#[derive(Clone, Copy, Debug, PartialEq, Eq, Structural)]
pub struct CanonicalBookAppraisal {
    pub class: EnchantAppraisalClass,
    pub level: u8,
    pub value: i64,
}

#[derive(Clone, Copy, Debug, PartialEq, Eq, Structural)]
pub enum EnchantAppraisalError {
    InvalidLevel(u8),
    ArithmeticOverflow,
}

/// Canonical resulting levels are I through X.
pub open spec fn valid_appraisal_level(level: u8) -> bool {
    1 <= level <= 10
}

/// Frozen level multiplier, in hundredths, for Levels I-X.
pub open spec fn spec_level_multiplier(level: u8) -> int {
    if level == 1 {
        100
    } else if level == 2 {
        175
    } else if level == 3 {
        300
    } else if level == 4 {
        525
    } else if level == 5 {
        900
    } else if level == 6 {
        1_500
    } else if level == 7 {
        2_500
    } else if level == 8 {
        4_200
    } else if level == 9 {
        7_000
    } else {
        12_000
    }
}

/// Canonical book value: 60,000 x class weight x level multiplier / 100.
pub open spec fn spec_book_value(class: EnchantAppraisalClass, level: u8) -> int {
    60_000 * spec_class_weight(class) * spec_level_multiplier(level) / 100
}

/// The full canonical book appraisal, or the invalid-level rejection.
pub open spec fn spec_book_appraisal(class: EnchantAppraisalClass, level: u8) -> Result<
    CanonicalBookAppraisal,
    EnchantAppraisalError,
> {
    if valid_appraisal_level(level) {
        Ok(CanonicalBookAppraisal { class, level, value: spec_book_value(class, level) as i64 })
    } else {
        Err(EnchantAppraisalError::InvalidLevel(level))
    }
}

/// Book values are positive, bounded, and increase strictly with the level.
pub proof fn lemma_book_value_bounds(class: EnchantAppraisalClass, level: u8)
    requires
        valid_appraisal_level(level),
    ensures
        0 < spec_book_value(class, level) <= max_book_value(),
        level < 10 ==> spec_book_value(class, level) < spec_book_value(class, (level + 1) as u8),
{
    let w = spec_class_weight(class);
    assert(1 <= w <= 20);
    let m = spec_level_multiplier(level);
    assert(100 <= m <= 12_000);
    assert(60_000 * w * m <= 60_000 * 20 * 12_000) by (nonlinear_arith)
        requires 1 <= w <= 20, 100 <= m <= 12_000;
    assert(60_000 * w * m >= 6_000_000) by (nonlinear_arith)
        requires 1 <= w <= 20, 100 <= m <= 12_000;
    if level < 10 {
        let m2 = spec_level_multiplier((level + 1) as u8);
        assert(m2 >= m + 75);
        assert(60_000 * w * m2 >= 60_000 * w * m + 60_000 * 75) by (nonlinear_arith)
            requires 1 <= w, m2 >= m + 75;
    }
}

/// Resolves the frozen canonical book appraisal for an already-classified embedded enchant.
pub fn canonical_book_appraisal(class: EnchantAppraisalClass, level: u8) -> (r: Result<
    CanonicalBookAppraisal,
    EnchantAppraisalError,
>)
    ensures
        r == spec_book_appraisal(class, level),
        r matches Ok(a) ==> 0 < a.value <= max_book_value(),
{
    let level_multiplier_hundredths = level_multiplier_hundredths(level)?;
    let weight = class.weight();
    proof {
        lemma_book_value_bounds(class, level);
        assert(BOOK_APPRAISAL_BASE * weight * level_multiplier_hundredths <= 60_000 * 20 * 12_000)
            by (nonlinear_arith)
            requires
                1 <= weight <= 20,
                100 <= level_multiplier_hundredths <= 12_000,
                BOOK_APPRAISAL_BASE == 60_000,
        ;
        assert(BOOK_APPRAISAL_BASE * weight >= 0);
    }
    let numerator = BOOK_APPRAISAL_BASE * weight * level_multiplier_hundredths;
    let value = numerator / MULTIPLIER_DENOMINATOR;
    Ok(CanonicalBookAppraisal { class, level, value: value as i64 })
}

/// Sum of the book values of a sequence of already-resolved appraisals, stopping at the first
/// rejection.
pub open spec fn spec_book_total(s: Seq<Result<CanonicalBookAppraisal, EnchantAppraisalError>>) -> Result<
    int,
    EnchantAppraisalError,
>
    decreases s.len(),
{
    if s.len() == 0 {
        Ok(0)
    } else {
        match spec_book_total(s.drop_last()) {
            Err(e) => Err(e),
            Ok(t) => match s.last() {
                Err(e) => Err(e),
                Ok(a) => Ok(t + a.value),
            },
        }
    }
}

/// 70% of a nonnegative book total, rounded half up.
pub open spec fn spec_seventy_percent_rounded(total: int) -> int {
    (total * 70 + 50) / 100
}

/// Embedded value of a sequence of book appraisals: the first rejection, or 70% of the total
/// rounded half up, when that fits `i64`.
pub open spec fn spec_embedded_value(s: Seq<Result<CanonicalBookAppraisal, EnchantAppraisalError>>) -> Result<
    i64,
    EnchantAppraisalError,
> {
    match spec_book_total(s) {
        Err(e) => Err(e),
        Ok(t) => if spec_seventy_percent_rounded(t) <= i64::MAX {
            Ok(spec_seventy_percent_rounded(t) as i64)
        } else {
            Err(EnchantAppraisalError::ArithmeticOverflow)
        },
    }
}

/// The appraisals that class-based inputs resolve to.
pub open spec fn spec_class_appraisals(s: Seq<EmbeddedEnchantAppraisalInput>) -> Seq<
    Result<CanonicalBookAppraisal, EnchantAppraisalError>,
> {
    s.map_values(|e: EmbeddedEnchantAppraisalInput| spec_book_appraisal(e.class, e.level))
}

/// Every resolved appraisal carries a value between 0 and the largest book value.
pub open spec fn appraisals_in_range(s: Seq<Result<CanonicalBookAppraisal, EnchantAppraisalError>>) -> bool {
    forall|i: int|
        0 <= i < s.len() ==> (#[trigger] s[i] matches Ok(a) ==> 0 <= a.value <= max_book_value())
}

proof fn lemma_book_total_bounds(s: Seq<Result<CanonicalBookAppraisal, EnchantAppraisalError>>)
    requires
        appraisals_in_range(s),
    ensures
        spec_book_total(s) matches Ok(t) ==> 0 <= t <= s.len() * max_book_value(),
    decreases s.len(),
{
    if s.len() > 0 {
        let p = s.drop_last();
        assert forall|i: int| 0 <= i < p.len() implies (#[trigger] p[i] matches Ok(a) ==> 0
            <= a.value <= max_book_value()) by {
            assert(p[i] == s[i]);
        }
        lemma_book_total_bounds(p);
        assert(s.last() == s[s.len() - 1]);
    }
}

/// Sum of the canonical book values of class-based inputs.
pub open spec fn spec_book_value_sum(s: Seq<EmbeddedEnchantAppraisalInput>) -> int
    decreases s.len(),
{
    if s.len() == 0 {
        0
    } else {
        spec_book_value_sum(s.drop_last()) + spec_book_value(s.last().class, s.last().level)
    }
}

/// Every input carries a canonical resulting level.
pub open spec fn spec_all_levels_valid(s: Seq<EmbeddedEnchantAppraisalInput>) -> bool {
    forall|i: int| 0 <= i < s.len() ==> valid_appraisal_level(#[trigger] s[i].level)
}

/// Input `i` is the first whose level lies outside I-X.
pub open spec fn spec_first_invalid_level_at(s: Seq<EmbeddedEnchantAppraisalInput>, i: int) -> bool {
    &&& 0 <= i < s.len()
    &&& !valid_appraisal_level(s[i].level)
    &&& forall|k: int| 0 <= k < i ==> valid_appraisal_level(#[trigger] s[k].level)
}

/// When every level is canonical, the book appraisals of the inputs total the book value sum.
pub proof fn lemma_book_total_is_book_value_sum(s: Seq<EmbeddedEnchantAppraisalInput>)
    requires
        spec_all_levels_valid(s),
    ensures
        spec_book_total(spec_class_appraisals(s)) == Ok::<int, EnchantAppraisalError>(
            spec_book_value_sum(s),
        ),
    decreases s.len(),
{
    if s.len() > 0 {
        let p = s.drop_last();
        assert(spec_class_appraisals(s).drop_last() =~= spec_class_appraisals(p));
        assert(spec_all_levels_valid(p)) by {
            assert forall|i: int| 0 <= i < p.len() implies valid_appraisal_level(
                #[trigger] p[i].level,
            ) by {
                assert(p[i] == s[i]);
            }
        }
        lemma_book_total_is_book_value_sum(p);
        let last = s.last();
        assert(valid_appraisal_level(s[s.len() - 1].level));
        lemma_book_value_bounds(last.class, last.level);
        assert(spec_class_appraisals(s).last() == spec_book_appraisal(last.class, last.level));
    }
}

/// The first input with a level outside I-X decides the rejection of the whole sequence.
pub proof fn lemma_first_invalid_level_rejects(s: Seq<EmbeddedEnchantAppraisalInput>, i: int)
    requires
        spec_first_invalid_level_at(s, i),
    ensures
        spec_book_total(spec_class_appraisals(s)) == Err::<int, EnchantAppraisalError>(
            EnchantAppraisalError::InvalidLevel(s[i].level),
        ),
{
    let t = s.take(i);
    assert(spec_class_appraisals(t) =~= spec_class_appraisals(s).take(i));
    assert(spec_all_levels_valid(t)) by {
        assert forall|k: int| 0 <= k < t.len() implies valid_appraisal_level(
            #[trigger] t[k].level,
        ) by {
            assert(t[k] == s[k]);
        }
    }
    lemma_book_total_is_book_value_sum(t);
    lemma_error_propagates(spec_class_appraisals(s), i);
}

/// Computes the frozen value contributed by all already-classified enchants embedded in one item:
/// with every level in I-X, 70% of the sum of the canonical book values, rounded half up (an
/// empty sequence is worth 0); otherwise the first level outside I-X is rejected.
pub fn embedded_enchant_value(enchants: &[EmbeddedEnchantAppraisalInput]) -> (r: Result<
    i64,
    EnchantAppraisalError,
>)
    ensures
        r == spec_embedded_value(spec_class_appraisals(enchants@)),
        spec_all_levels_valid(enchants@) ==> r == (if spec_seventy_percent_rounded(
            spec_book_value_sum(enchants@),
        ) <= i64::MAX {
            Ok::<i64, EnchantAppraisalError>(
                spec_seventy_percent_rounded(spec_book_value_sum(enchants@)) as i64,
            )
        } else {
            Err::<i64, EnchantAppraisalError>(EnchantAppraisalError::ArithmeticOverflow)
        }),
        forall|i: int|
            #[trigger] spec_first_invalid_level_at(enchants@, i) ==> r == Err::<
                i64,
                EnchantAppraisalError,
            >(EnchantAppraisalError::InvalidLevel(enchants@[i].level)),
{
    proof {
        if spec_all_levels_valid(enchants@) {
            lemma_book_total_is_book_value_sum(enchants@);
        }
        assert forall|i: int| #[trigger] spec_first_invalid_level_at(enchants@, i)
                implies spec_book_total(spec_class_appraisals(enchants@)) == Err::<
            int,
            EnchantAppraisalError,
        >(EnchantAppraisalError::InvalidLevel(enchants@[i].level)) by {
            lemma_first_invalid_level_rejects(enchants@, i);
        }
    }
    let mut appraisals: Vec<Result<CanonicalBookAppraisal, EnchantAppraisalError>> = Vec::new();
    let mut i: usize = 0;
    while i < enchants.len()
        invariant
            i <= enchants.len(),
            appraisals@ =~= spec_class_appraisals(enchants@).take(i as int),
            appraisals_in_range(appraisals@),
        decreases enchants.len() - i,
    {
        let a = canonical_book_appraisal(enchants[i].class, enchants[i].level);
        appraisals.push(a);
        i = i + 1;
    }
    assert(appraisals@ =~= spec_class_appraisals(enchants@));
    embedded_enchant_value_from_book_appraisals(appraisals.as_slice())
}

/// The shared book summation and 70%-round-half-up accumulator, for the crate's callers, which
/// hand it canonical book appraisals only.
pub(crate) fn embedded_enchant_value_from_book_appraisals(
    appraisals: &[Result<CanonicalBookAppraisal, EnchantAppraisalError>],
) -> (r: Result<i64, EnchantAppraisalError>)
    requires
        appraisals_in_range(appraisals@),
    ensures
        r == spec_embedded_value(appraisals@),
{
    let mut total: i128 = 0;
    let mut i: usize = 0;
    proof {
        lemma_book_total_bounds(appraisals@);
    }
    while i < appraisals.len()
        invariant
            i <= appraisals.len(),
            appraisals_in_range(appraisals@),
            spec_book_total(appraisals@.take(i as int)) == Ok::<int, EnchantAppraisalError>(
                total as int,
            ),
            0 <= total <= i * max_book_value(),
        decreases appraisals.len() - i,
    {
        let ghost prefix = appraisals@.take(i as int);
        assert(appraisals@.take(i + 1).drop_last() =~= prefix);
        match appraisals[i] {
            Err(e) => {
                proof {
                    lemma_error_propagates(appraisals@, i as int);
                }
                return Err(e);
            },
            Ok(a) => {
                assert(0 <= a.value <= max_book_value());
                assert(i * max_book_value() + max_book_value() == (i + 1) * max_book_value())
                    by (nonlinear_arith);
                assert((i + 1) * max_book_value() <= usize::MAX * max_book_value())
                    by (nonlinear_arith)
                    requires i + 1 <= usize::MAX;
                total = total + a.value as i128;
            },
        }
        i = i + 1;
    }
    assert(appraisals@.take(i as int) =~= appraisals@);
    assert(total * 70 + 50 <= usize::MAX * max_book_value() * 70 + 50) by (nonlinear_arith)
        requires 0 <= total <= usize::MAX * max_book_value();
    let numerator = total * EMBEDDED_VALUE_NUMERATOR;
    let rounded = round_half_up_nonnegative(numerator, EMBEDDED_VALUE_DENOMINATOR)?;
    if rounded <= i64::MAX as i128 {
        Ok(rounded as i64)
    } else {
        Err(EnchantAppraisalError::ArithmeticOverflow)
    }
}

proof fn lemma_error_propagates(s: Seq<Result<CanonicalBookAppraisal, EnchantAppraisalError>>, i: int)
    requires
        0 <= i < s.len(),
        spec_book_total(s.take(i)) is Ok,
        s[i] is Err,
    ensures
        spec_book_total(s) == Err::<int, EnchantAppraisalError>(s[i]->Err_0),
    decreases s.len() - i,
{
    assert(s.take(i + 1).drop_last() =~= s.take(i));
    if i + 1 == s.len() {
        assert(s.take(i + 1) =~= s);
    } else {
        lemma_error_stays(s, i + 1);
    }
}

proof fn lemma_error_stays(s: Seq<Result<CanonicalBookAppraisal, EnchantAppraisalError>>, k: int)
    requires
        0 < k <= s.len(),
        spec_book_total(s.take(k)) is Err,
    ensures
        spec_book_total(s) == spec_book_total(s.take(k)),
    decreases s.len() - k,
{
    if k < s.len() {
        assert(s.take(k + 1).drop_last() =~= s.take(k));
        lemma_error_stays(s, k + 1);
    } else {
        assert(s.take(k) =~= s);
    }
}

fn level_multiplier_hundredths(level: u8) -> (r: Result<i128, EnchantAppraisalError>)
    ensures
        valid_appraisal_level(level) ==> r == Ok::<i128, EnchantAppraisalError>(
            spec_level_multiplier(level) as i128,
        ),
        !valid_appraisal_level(level) ==> r == Err::<i128, EnchantAppraisalError>(
            EnchantAppraisalError::InvalidLevel(level),
        ),
{
    match level {
        1 => Ok(100),
        2 => Ok(175),
        3 => Ok(300),
        4 => Ok(525),
        5 => Ok(900),
        6 => Ok(1_500),
        7 => Ok(2_500),
        8 => Ok(4_200),
        9 => Ok(7_000),
        10 => Ok(12_000),
        _ => Err(EnchantAppraisalError::InvalidLevel(level)),
    }
}

fn round_half_up_nonnegative(numerator: i128, denominator: i128) -> (r: Result<
    i128,
    EnchantAppraisalError,
>)
    requires
        numerator >= 0,
        denominator > 0,
    ensures
        numerator + denominator / 2 <= i128::MAX ==> r == Ok::<i128, EnchantAppraisalError>(
            ((numerator + denominator / 2) / (denominator as int)) as i128,
        ),
        numerator + denominator / 2 > i128::MAX ==> r == Err::<i128, EnchantAppraisalError>(
            EnchantAppraisalError::ArithmeticOverflow,
        ),
{
    match numerator.checked_add(denominator / 2) {
        Some(value) => Ok(value / denominator),
        None => Err(EnchantAppraisalError::ArithmeticOverflow),
    }
}

} // verus!
