//! Body weight: the records of the tracker, the targets, and the rules that a
//! new record has to keep. A weight is a whole number of grams.

use vstd::prelude::*;
use vstd::string::*;

use crate::clock::{date_number, is_time, parse_date, spells_time};
use crate::service::validation::{
    check_target_dates, coded, date_fault, fault, no_fault, range_fault, target_dates_code,
    FieldErrorsView, ValidationError, ValidationErrors,
};

verus! {

// ============================================================================
// MODELS
// ============================================================================

/// Represents a weight tracker entry tied to a day. There may be multiple entries for one day.
#[derive(Debug)]
pub struct WeightTracker {
    pub id: i32,
    pub added: String,
    /// Weight in grams.
    pub amount: i64,
    pub time: String,
}

/// For creation of a new [WeightTracker] entry.
#[derive(Debug)]
pub struct NewWeightTracker {
    pub added: String,
    /// Weight in grams.
    pub amount: i64,
    /// The time of day of the entry. The store fills in the time of the
    /// insertion where there is none.
    pub time: Option<String>,
}

/// What a [`NewWeightTracker`] holds, as mathematical values.
pub struct NewWeightTrackerView {
    pub added: Seq<char>,
    pub amount: i64,
    pub time: Option<Seq<char>>,
}

impl View for NewWeightTracker {
    type V = NewWeightTrackerView;

    open spec fn view(&self) -> NewWeightTrackerView {
        NewWeightTrackerView {
            added: self.added@,
            amount: self.amount,
            time: match self.time {
                Some(t) => Some(t@),
                None => None,
            },
        }
    }
}

/// Represents a target weight that the user wants to reach until a specific date occurs.
#[derive(Debug)]
pub struct WeightTarget {
    pub id: i32,
    pub added: String,
    pub end_date: String,
    /// Weight in grams.
    pub initial_weight: i64,
    pub start_date: String,
    /// Weight in grams.
    pub target_weight: i64,
}

/// For creation of a new [WeightTarget] entry.
#[derive(Debug)]
pub struct NewWeightTarget {
    pub added: String,
    pub end_date: String,
    /// Weight in grams.
    pub initial_weight: i64,
    pub start_date: String,
    /// Weight in grams.
    pub target_weight: i64,
}

/// What a [`NewWeightTarget`] holds, as mathematical values.
pub struct NewWeightTargetView {
    pub added: Seq<char>,
    pub end_date: Seq<char>,
    pub initial_weight: i64,
    pub start_date: Seq<char>,
    pub target_weight: i64,
}

impl View for NewWeightTarget {
    type V = NewWeightTargetView;

    open spec fn view(&self) -> NewWeightTargetView {
        NewWeightTargetView {
            added: self.added@,
            end_date: self.end_date@,
            initial_weight: self.initial_weight,
            start_date: self.start_date@,
            target_weight: self.target_weight,
        }
    }
}

// ============================================================================
// VALIDATION
// ============================================================================

/// The code of a time that is not written as `HH:MM:SS`.
pub open spec fn time_code() -> Seq<char> {
    "Invalid time format. Expected HH:MM:SS"@
}

/// What the time of a new entry files: a time that is given and not empty
/// must be written as `HH:MM:SS`.
pub open spec fn time_fault(time: Option<Seq<char>>) -> Seq<FieldErrorsView> {
    match time {
        Some(t) => if t.len() == 0 || spells_time(t) {
            no_fault()
        } else {
            fault("time"@, time_code(), None)
        },
        None => no_fault(),
    }
}

/// The rules that a new weight entry breaks: the day must be a date, the
/// weight must lie between 30 and 330 kg, and a time must be a time.
pub open spec fn weight_tracker_faults(e: NewWeightTrackerView) -> Seq<FieldErrorsView> {
    date_fault("added"@, e.added) + range_fault(
        "amount"@,
        e.amount as int,
        30_000,
        330_000,
        "Weight must be between 30 and 330 kg"@,
    ) + time_fault(e.time)
}

/// Whether the way from `initial` to `target` is more than half of `initial`.
pub open spec fn changes_too_much(initial: int, target: int) -> bool {
    if initial > 0 {
        2 * (target - initial) > initial || 2 * (initial - target) > initial
    } else {
        initial == 0 && target != 0
    }
}

/// The rule of a target as a whole that a new weight target breaks, if it
/// breaks one: the dates must be in order and reach into the future, and the
/// weight may not change by more than half.
pub open spec fn weight_target_code(t: NewWeightTargetView, today: i32) -> Option<Seq<char>> {
    match target_dates_code(date_number(t.start_date), date_number(t.end_date), today) {
        Some(code) => Some(code),
        None => if changes_too_much(t.initial_weight as int, t.target_weight as int) {
            Some("Weight change cannot exceed 50% of initial weight"@)
        } else {
            None
        },
    }
}

/// The rules of its fields that a new weight target breaks.
pub open spec fn weight_target_field_faults(t: NewWeightTargetView) -> Seq<FieldErrorsView> {
    date_fault("added"@, t.added) + date_fault("end_date"@, t.end_date) + range_fault(
        "initial_weight"@,
        t.initial_weight as int,
        30_000,
        300_000,
        "Initial weight must be between 30 and 300 kg"@,
    ) + date_fault("start_date"@, t.start_date) + range_fault(
        "target_weight"@,
        t.target_weight as int,
        30_000,
        300_000,
        "Target weight must be between 30 and 300 kg"@,
    )
}

/// The rules that a new weight target breaks on the day `today`. The rule of
/// the target as a whole is looked at only where every field is in order.
pub open spec fn weight_target_faults(t: NewWeightTargetView, today: i32) -> Seq<FieldErrorsView> {
    if weight_target_field_faults(t).len() > 0 {
        weight_target_field_faults(t)
    } else {
        match weight_target_code(t, today) {
            Some(code) => fault("__all__"@, code, None),
            None => no_fault(),
        }
    }
}

/// Validates time format (HH:MM:SS) for String fields
pub fn validate_time_format(time_str: &str) -> (result: Result<(), ValidationError>)
    ensures
        result is Ok <==> spells_time(time_str@),
        result matches Err(error) ==> error@ == coded(time_code()),
{
    if is_time(time_str) {
        Ok(())
    } else {
        Err(ValidationError::new("Invalid time format. Expected HH:MM:SS"))
    }
}

/// Validates time format (HH:MM:SS) for fields that may be left empty
pub fn validate_time_format_optional(time_str: &str) -> (result: Result<(), ValidationError>)
    ensures
        result is Ok <==> time_str@.len() == 0 || spells_time(time_str@),
        result matches Err(error) ==> error@ == coded(time_code()),
{
    // Empty is valid, the store will use its default
    if time_str.unicode_len() == 0 {
        return Ok(());
    }
    validate_time_format(time_str)
}

/// Validates weight target logic
pub fn validate_weight_target(target: &NewWeightTarget, today: i32) -> (result: Result<
    (),
    ValidationError,
>)
    ensures
        result is Ok <==> weight_target_code(target@, today) is None,
        result matches Err(error) ==> weight_target_code(target@, today) == Some(error@.code)
            && error@.message is None,
{
    // Parse and validate date order
    let start = parse_date(target.start_date.as_str());
    let end = parse_date(target.end_date.as_str());
    match check_target_dates(start, end, today) {
        Err(error) => {
            return Err(error);
        },
        Ok(()) => {},
    }
    // Validate weight difference is reasonable (not more than 50% change)
    let initial: i128 = target.initial_weight as i128;
    let goal: i128 = target.target_weight as i128;
    let too_much = if initial > 0 {
        2 * (goal - initial) > initial || 2 * (initial - goal) > initial
    } else {
        initial == 0 && goal != 0
    };
    if too_much {
        return Err(ValidationError::new("Weight change cannot exceed 50% of initial weight"));
    }
    Ok(())
}

impl NewWeightTracker {
    /// A new weight entry without a time of its own.
    pub fn new(added: String, amount: i64) -> (entry: NewWeightTracker)
        ensures
            entry.added == added,
            entry.amount == amount,
            entry.time is None,
    {
        NewWeightTracker { added, amount, time: None }
    }

    /// Checks the entry against its rules: valid exactly when it breaks none,
    /// and else every broken rule is reported.
    pub fn validate(&self) -> (result: Result<(), ValidationErrors>)
        ensures
            result is Ok <==> weight_tracker_faults(self@).len() == 0,
            result matches Err(errors) ==> errors@ == weight_tracker_faults(self@),
    {
        let mut errors = ValidationErrors::new();
        errors.check_date("added", self.added.as_str());
        errors.check_range(
            "amount",
            self.amount,
            30_000,
            330_000,
            "Weight must be between 30 and 330 kg",
        );
        match &self.time {
            Some(t) => match validate_time_format_optional(t.as_str()) {
                Ok(()) => {
                    assert(errors@ + no_fault() =~= errors@);
                },
                Err(error) => {
                    errors.add("time", error);
                },
            },
            None => {
                assert(errors@ + no_fault() =~= errors@);
            },
        }
        assert(errors@ =~= weight_tracker_faults(self@));
        if errors.is_empty() {
            Ok(())
        } else {
            Err(errors)
        }
    }
}

impl NewWeightTarget {
    /// Checks the target against its rules on the day `today`: valid exactly
    /// when it breaks none, and else the broken rules are reported.
    pub fn validate(&self, today: i32) -> (result: Result<(), ValidationErrors>)
        ensures
            result is Ok <==> weight_target_faults(self@, today).len() == 0,
            result matches Err(errors) ==> errors@ == weight_target_faults(self@, today),
    {
        let mut errors = ValidationErrors::new();
        errors.check_date("added", self.added.as_str());
        errors.check_date("end_date", self.end_date.as_str());
        errors.check_range(
            "initial_weight",
            self.initial_weight,
            30_000,
            300_000,
            "Initial weight must be between 30 and 300 kg",
        );
        errors.check_date("start_date", self.start_date.as_str());
        errors.check_range(
            "target_weight",
            self.target_weight,
            30_000,
            300_000,
            "Target weight must be between 30 and 300 kg",
        );
        assert(errors@ =~= weight_target_field_faults(self@));
        if errors.is_empty() {
            match validate_weight_target(self, today) {
                Ok(()) => {},
                Err(error) => {
                    errors.add("__all__", error);
                    assert(errors@ =~= weight_target_faults(self@, today));
                },
            }
        }
        if errors.is_empty() {
            Ok(())
        } else {
            Err(errors)
        }
    }
}

} // verus!
