//! The whole-number parts of the goal wizard: the range of body mass indexes
//! to aim for at an age, and what to recommend for a weight class.

use std::ops::RangeInclusive;
use vstd::prelude::*;

verus! {

#[derive(Clone, Copy, Debug, PartialEq, Eq, Structural)]
pub enum CalculationGoal {
    GAIN,
    LOSS,
}

#[derive(Clone, Copy, Debug, PartialEq, Eq, Structural)]
pub enum CalculationSex {
    MALE,
    FEMALE,
}

#[derive(Clone, Copy, Debug, PartialEq, Eq, Structural)]
pub enum BmiCategory {
    Underweight,
    StandardWeight,
    Overweight,
    Obese,
    SeverelyObese,
}

#[derive(Clone, Copy, Debug, PartialEq, Eq, Structural)]
pub enum WizardRecommendation {
    HOLD,
    LOSE,
    GAIN,
}

/// What is wrong with one property of an input of the wizard.
#[derive(Debug)]
pub struct ErrorDescription {
    pub property_name: String,
    pub message: String,
}

/// The lowest body mass index to aim for at an age: 19 from the age of 19,
/// one more with every ten years from 25 on, and 24 from 65 on and below 19.
pub open spec fn target_bmi_lower(age: int) -> int {
    if 19 <= age <= 24 {
        19
    } else if 25 <= age <= 34 {
        20
    } else if 35 <= age <= 44 {
        21
    } else if 45 <= age <= 54 {
        22
    } else if 55 <= age <= 64 {
        23
    } else {
        24
    }
}

/// What to recommend for a weight class.
pub open spec fn recommendation_for(category: BmiCategory) -> WizardRecommendation {
    match category {
        BmiCategory::StandardWeight => WizardRecommendation::HOLD,
        BmiCategory::Underweight => WizardRecommendation::GAIN,
        _ => WizardRecommendation::LOSE,
    }
}

/// The range of body mass indexes to aim for at an age: five wide, from
/// [`target_bmi_lower`].
pub fn calculate_target_bmi(age: &i32) -> (range: RangeInclusive<i32>)
    ensures
        range@.start == target_bmi_lower(*age as int),
        range@.end == target_bmi_lower(*age as int) + 5,
        !range@.exhausted,
{
    let age = *age;
    if 19 <= age && age <= 24 {
        RangeInclusive::new(19, 24)
    } else if 25 <= age && age <= 34 {
        RangeInclusive::new(20, 25)
    } else if 35 <= age && age <= 44 {
        RangeInclusive::new(21, 26)
    } else if 45 <= age && age <= 54 {
        RangeInclusive::new(22, 27)
    } else if 55 <= age && age <= 64 {
        RangeInclusive::new(23, 28)
    } else {
        RangeInclusive::new(24, 29)
    }
}

/// What to recommend for a weight class: to hold a standard weight, to gain
/// from underweight, and to lose otherwise.
pub fn calculate_recommendation(bmi_category: &BmiCategory) -> (recommendation: WizardRecommendation)
    ensures
        recommendation == recommendation_for(*bmi_category),
{
    match bmi_category {
        BmiCategory::StandardWeight => WizardRecommendation::HOLD,
        BmiCategory::Underweight => WizardRecommendation::GAIN,
        BmiCategory::Overweight => WizardRecommendation::LOSE,
        BmiCategory::Obese => WizardRecommendation::LOSE,
        BmiCategory::SeverelyObese => WizardRecommendation::LOSE,
    }
}

} // verus!
