//! Calorie intake: the records of the tracker, the targets, and the rules
//! that a new record has to keep.

use vstd::prelude::*;
use vstd::string::*;

use crate::clock::{date_number, parse_date};
use crate::service::validation::{
    check_target_dates, date_fault, fault, length_fault, no_fault, range_fault,
    target_dates_code, FieldErrorsView, ValidationError, ValidationErrors,
};

verus! {

// ============================================================================
// MODELS
// ============================================================================

/// Represents the category for Intake. <key, value> pair for the category dropdown in the UI.
#[derive(Debug)]
pub struct FoodCategory {
    pub longvalue: String,
    pub shortvalue: String,
}

/// Represents an intake entry tied to a day. There may be multiple entries for the same
/// category.
#[derive(Debug)]
pub struct Intake {
    pub id: i32,
    pub added: String,
    pub amount: i32,
    pub category: String,
    pub description: Option<String>,
}

/// For creation of a new [Intake] entry.
#[derive(Debug)]
pub struct NewIntake {
    pub added: String,
    pub amount: i32,
    pub category: String,
    pub description: Option<String>,
}

/// What a [`NewIntake`] holds, as mathematical values.
pub struct NewIntakeView {
    pub added: Seq<char>,
    pub amount: i32,
    pub category: Seq<char>,
    pub description: Option<Seq<char>>,
}

impl View for NewIntake {
    type V = NewIntakeView;

    open spec fn view(&self) -> NewIntakeView {
        NewIntakeView {
            added: self.added@,
            amount: self.amount,
            category: self.category@,
            description: match self.description {
                Some(d) => Some(d@),
                None => None,
            },
        }
    }
}

/// Represents a target for the maximum calorie intake per day. Will display a warning in the
/// UI if an overflow occurs.
#[derive(Debug)]
pub struct IntakeTarget {
    pub id: i32,
    pub added: String,
    pub end_date: String,
    pub maximum_calories: i32,
    pub start_date: String,
    pub target_calories: i32,
}

/// For creation of a new [IntakeTarget] entry.
#[derive(Debug)]
pub struct NewIntakeTarget {
    pub added: String,
    pub end_date: String,
    pub maximum_calories: i32,
    pub start_date: String,
    pub target_calories: i32,
}

/// What a [`NewIntakeTarget`] holds, as mathematical values.
pub struct NewIntakeTargetView {
    pub added: Seq<char>,
    pub end_date: Seq<char>,
    pub maximum_calories: i32,
    pub start_date: Seq<char>,
    pub target_calories: i32,
}

impl View for NewIntakeTarget {
    type V = NewIntakeTargetView;

    open spec fn view(&self) -> NewIntakeTargetView {
        NewIntakeTargetView {
            added: self.added@,
            end_date: self.end_date@,
            maximum_calories: self.maximum_calories,
            start_date: self.start_date@,
            target_calories: self.target_calories,
        }
    }
}

// ============================================================================
// VALIDATION
// ============================================================================

/// The rules that a new intake entry breaks: the day must be a date, the
/// amount must lie between 1 and 10,000, the category must have 1 to 50
/// characters, and a description at most 500.
pub open spec fn intake_faults(e: NewIntakeView) -> Seq<FieldErrorsView> {
    date_fault("added"@, e.added) + range_fault(
        "amount"@,
        e.amount as int,
        1,
        10_000,
        "Calorie amount must be between 1 and 10,000"@,
    ) + length_fault("category"@, e.category, 1, 50, "Category must be between 1 and 50 characters"@)
        + match e.description {
        Some(d) => length_fault(
            "description"@,
            d,
            0,
            500,
            "Description must be less than 500 characters"@,
        ),
        None => no_fault(),
    }
}

/// The rule of a target as a whole that a new intake target breaks, if it
/// breaks one: the target may not exceed the maximum, and the dates must be in
/// order and reach into the future.
pub open spec fn intake_target_code(t: NewIntakeTargetView, today: i32) -> Option<Seq<char>> {
    if t.target_calories > t.maximum_calories {
        Some("Target calories cannot exceed maximum calories"@)
    } else {
        target_dates_code(date_number(t.start_date), date_number(t.end_date), today)
    }
}

/// The rules of its fields that a new intake target breaks.
pub open spec fn intake_target_field_faults(t: NewIntakeTargetView) -> Seq<FieldErrorsView> {
    date_fault("added"@, t.added) + date_fault("end_date"@, t.end_date) + range_fault(
        "maximum_calories"@,
        t.maximum_calories as int,
        1,
        10_000,
        "Maximum calories must be between 1 and 10,000"@,
    ) + date_fault("start_date"@, t.start_date) + range_fault(
        "target_calories"@,
        t.target_calories as int,
        1,
        10_000,
        "Target calories must be between 1 and 10,000"@,
    )
}

/// The rules that a new intake target breaks on the day `today`. The rule of
/// the target as a whole is looked at only where every field is in order.
pub open spec fn intake_target_faults(t: NewIntakeTargetView, today: i32) -> Seq<FieldErrorsView> {
    if intake_target_field_faults(t).len() > 0 {
        intake_target_field_faults(t)
    } else {
        match intake_target_code(t, today) {
            Some(code) => fault("__all__"@, code, None),
            None => no_fault(),
        }
    }
}

/// Validates that target calories doesn't exceed maximum calories and dates are logical
pub fn validate_intake_target(target: &NewIntakeTarget, today: i32) -> (result: Result<
    (),
    ValidationError,
>)
    ensures
        result is Ok <==> intake_target_code(target@, today) is None,
        result matches Err(error) ==> intake_target_code(target@, today) == Some(error@.code)
            && error@.message is None,
{
    // Check target calories doesn't exceed maximum
    if target.target_calories > target.maximum_calories {
        return Err(ValidationError::new("Target calories cannot exceed maximum calories"));
    }
    // Parse and validate date order
    let start = parse_date(target.start_date.as_str());
    let end = parse_date(target.end_date.as_str());
    check_target_dates(start, end, today)
}

impl NewIntake {
    /// A new intake entry with these fields.
    pub fn new(added: String, amount: i32, category: String, description: Option<String>) -> (entry:
        NewIntake)
        ensures
            entry.added == added,
            entry.amount == amount,
            entry.category == category,
            entry.description == description,
    {
        NewIntake { added, amount, category, description }
    }

    /// Checks the entry against its rules: valid exactly when it breaks none,
    /// and else every broken rule is reported.
    pub fn validate(&self) -> (result: Result<(), ValidationErrors>)
        ensures
            result is Ok <==> intake_faults(self@).len() == 0,
            result matches Err(errors) ==> errors@ == intake_faults(self@),
    {
        let mut errors = ValidationErrors::new();
        errors.check_date("added", self.added.as_str());
        errors.check_range(
            "amount",
            self.amount as i64,
            1,
            10_000,
            "Calorie amount must be between 1 and 10,000",
        );
        errors.check_length(
            "category",
            self.category.as_str(),
            1,
            50,
            "Category must be between 1 and 50 characters",
        );
        match &self.description {
            Some(d) => {
                errors.check_length(
                    "description",
                    d.as_str(),
                    0,
                    500,
                    "Description must be less than 500 characters",
                );
            },
            None => {
                assert(errors@ + no_fault() =~= errors@);
            },
        }
        assert(errors@ =~= intake_faults(self@));
        if errors.is_empty() {
            Ok(())
        } else {
            Err(errors)
        }
    }
}

impl NewIntakeTarget {
    /// Checks the target against its rules on the day `today`: valid exactly
    /// when it breaks none, and else the broken rules are reported.
    pub fn validate(&self, today: i32) -> (result: Result<(), ValidationErrors>)
        ensures
            result is Ok <==> intake_target_faults(self@, today).len() == 0,
            result matches Err(errors) ==> errors@ == intake_target_faults(self@, today),
    {
        let mut errors = ValidationErrors::new();
        errors.check_date("added", self.added.as_str());
        errors.check_date("end_date", self.end_date.as_str());
        errors.check_range(
            "maximum_calories",
            self.maximum_calories as i64,
            1,
            10_000,
            "Maximum calories must be between 1 and 10,000",
        );
        errors.check_date("start_date", self.start_date.as_str());
        errors.check_range(
            "target_calories",
            self.target_calories as i64,
            1,
            10_000,
            "Target calories must be between 1 and 10,000",
        );
        assert(errors@ =~= intake_target_field_faults(self@));
        if errors.is_empty() {
            match validate_intake_target(self, today) {
                Ok(()) => {},
                Err(error) => {
                    errors.add("__all__", error);
                    assert(errors@ =~= intake_target_faults(self@, today));
                },
            }
        }
        if errors.is_empty() {
            Ok(())
        } else {
            Err(errors)
        }
    }
}

} // verus!
