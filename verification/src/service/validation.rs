//! What a failed validation reports, and the checks that the record types
//! share.

use vstd::prelude::*;
use vstd::string::*;

use crate::clock::{date_number, parse_date};

verus! {

/// One broken rule: the code of the rule and, where the rule has one, the
/// message for the user.
#[derive(Debug)]
pub struct ValidationError {
    pub code: String,
    pub message: Option<String>,
}

/// What a [`ValidationError`] holds, as mathematical values.
pub struct ValidationErrorView {
    pub code: Seq<char>,
    pub message: Option<Seq<char>>,
}

impl View for ValidationError {
    type V = ValidationErrorView;

    open spec fn view(&self) -> ValidationErrorView {
        ValidationErrorView {
            code: self.code@,
            message: match self.message {
                Some(m) => Some(m@),
                None => None,
            },
        }
    }
}

/// The rules that one field broke. The rules that speak of a record as a whole
/// are filed under the field name `__all__`.
#[derive(Debug)]
pub struct FieldErrors {
    pub field: String,
    pub errors: Vec<ValidationError>,
}

/// What a [`FieldErrors`] holds, as mathematical values.
pub struct FieldErrorsView {
    pub field: Seq<char>,
    pub errors: Seq<ValidationErrorView>,
}

impl View for FieldErrors {
    type V = FieldErrorsView;

    open spec fn view(&self) -> FieldErrorsView {
        FieldErrorsView {
            field: self.field@,
            errors: self.errors@.map_values(|e: ValidationError| e@),
        }
    }
}

/// All the rules that a record broke, field by field in the order in which
/// the record declares its fields. A record is valid when there are none.
#[derive(Debug)]
pub struct ValidationErrors {
    pub fields: Vec<FieldErrors>,
}

impl View for ValidationErrors {
    type V = Seq<FieldErrorsView>;

    open spec fn view(&self) -> Seq<FieldErrorsView> {
        self.fields@.map_values(|f: FieldErrors| f@)
    }
}

/// A broken rule that has only a code.
pub open spec fn coded(code: Seq<char>) -> ValidationErrorView {
    ValidationErrorView { code, message: None }
}

/// A broken rule of a field: what is filed when the only rule of `field` is
/// broken with `code` and `message`.
pub open spec fn fault(field: Seq<char>, code: Seq<char>, message: Option<Seq<char>>) -> Seq<
    FieldErrorsView,
> {
    seq![FieldErrorsView { field, errors: seq![ValidationErrorView { code, message }] }]
}

/// Nothing to file.
pub open spec fn no_fault() -> Seq<FieldErrorsView> {
    Seq::empty()
}

/// The code of a date that is not written as `YYYY-MM-DD`.
pub open spec fn date_code() -> Seq<char> {
    "Invalid date format. Expected YYYY-MM-DD"@
}

/// What a field that must hold a date files.
pub open spec fn date_fault(field: Seq<char>, text: Seq<char>) -> Seq<FieldErrorsView> {
    if date_number(text) is Some {
        no_fault()
    } else {
        fault(field, date_code(), None)
    }
}

/// What a field that must hold a number from `min` to `max` files.
pub open spec fn range_fault(
    field: Seq<char>,
    value: int,
    min: int,
    max: int,
    message: Seq<char>,
) -> Seq<FieldErrorsView> {
    if min <= value <= max {
        no_fault()
    } else {
        fault(field, "range"@, Some(message))
    }
}

/// What a field that must hold a text of `min` to `max` characters files.
pub open spec fn length_fault(
    field: Seq<char>,
    text: Seq<char>,
    min: int,
    max: int,
    message: Seq<char>,
) -> Seq<FieldErrorsView> {
    if min <= text.len() <= max {
        no_fault()
    } else {
        fault(field, "length"@, Some(message))
    }
}

impl ValidationError {
    /// A broken rule that has only a code.
    pub fn new(code: &str) -> (error: ValidationError)
        ensures
            error@ == coded(code@),
    {
        ValidationError { code: String::from_str(code), message: None }
    }
}

impl ValidationErrors {
    /// No broken rule.
    pub fn new() -> (errors: ValidationErrors)
        ensures
            errors@ == no_fault(),
    {
        let errors = ValidationErrors { fields: Vec::new() };
        assert(errors@ =~= no_fault());
        errors
    }

    /// Whether no rule is broken.
    pub fn is_empty(&self) -> (empty: bool)
        ensures
            empty == (self@.len() == 0),
    {
        self.fields.len() == 0
    }

    /// Files `error` as the only broken rule of `field`.
    pub fn add(&mut self, field: &str, error: ValidationError)
        ensures
            final(self)@ == old(self)@ + fault(field@, error@.code, error@.message),
    {
        let mut errors: Vec<ValidationError> = Vec::new();
        errors.push(error);
        let filed = FieldErrors { field: String::from_str(field), errors };
        assert(filed@.errors =~= seq![error@]);
        self.fields.push(filed);
        assert(self@ =~= old(self)@ + fault(field@, error@.code, error@.message));
    }

    /// Checks that `text` is a date written as `YYYY-MM-DD`.
    pub fn check_date(&mut self, field: &str, text: &str)
        ensures
            final(self)@ == old(self)@ + date_fault(field@, text@),
    {
        match validate_date_format(text) {
            Ok(()) => {
                assert(self@ =~= old(self)@ + no_fault());
            },
            Err(error) => {
                self.add(field, error);
            },
        }
    }

    /// Checks that `value` lies between `min` and `max`, both included.
    pub fn check_range(&mut self, field: &str, value: i64, min: i64, max: i64, message: &str)
        ensures
            final(self)@ == old(self)@ + range_fault(
                field@,
                value as int,
                min as int,
                max as int,
                message@,
            ),
    {
        if value < min || value > max {
            self.add(
                field,
                ValidationError {
                    code: String::from_str("range"),
                    message: Some(String::from_str(message)),
                },
            );
        } else {
            assert(self@ =~= old(self)@ + no_fault());
        }
    }

    /// Checks that `text` has between `min` and `max` characters, both included.
    pub fn check_length(&mut self, field: &str, text: &str, min: usize, max: usize, message: &str)
        ensures
            final(self)@ == old(self)@ + length_fault(
                field@,
                text@,
                min as int,
                max as int,
                message@,
            ),
    {
        let length = text.unicode_len();
        if length < min || length > max {
            self.add(
                field,
                ValidationError {
                    code: String::from_str("length"),
                    message: Some(String::from_str(message)),
                },
            );
        } else {
            assert(self@ =~= old(self)@ + no_fault());
        }
    }
}

/// Validates date format (YYYY-MM-DD)
pub fn validate_date_format(date_str: &str) -> (result: Result<(), ValidationError>)
    ensures
        result is Ok <==> date_number(date_str@) is Some,
        result matches Err(error) ==> error@ == coded(date_code()),
{
    match parse_date(date_str) {
        Some(_) => Ok(()),
        None => Err(ValidationError::new("Invalid date format. Expected YYYY-MM-DD")),
    }
}

/// The rule that the dates of a target break, if they break one: both must be
/// dates, the end must lie after the start, and the end must lie after today.
pub open spec fn target_dates_code(start: Option<i32>, end: Option<i32>, today: i32) -> Option<
    Seq<char>,
> {
    if start is None {
        Some("Invalid start date format"@)
    } else if end is None {
        Some("Invalid end date format"@)
    } else if end->0 <= start->0 {
        Some("End date must be after start date"@)
    } else if end->0 <= today {
        Some("Your target date lies in the past"@)
    } else {
        None
    }
}

/// Checks the dates of a target, given as the numbers of their days where
/// they are dates at all.
pub fn check_target_dates(start: Option<i32>, end: Option<i32>, today: i32) -> (result: Result<
    (),
    ValidationError,
>)
    ensures
        result is Ok <==> target_dates_code(start, end, today) is None,
        result matches Err(error) ==> target_dates_code(start, end, today) == Some(error@.code)
            && error@.message is None,
{
    match start {
        None => Err(ValidationError::new("Invalid start date format")),
        Some(start_day) => match end {
            None => Err(ValidationError::new("Invalid end date format")),
            Some(end_day) => {
                if end_day <= start_day {
                    Err(ValidationError::new("End date must be after start date"))
                } else if end_day <= today {
                    Err(ValidationError::new("Your target date lies in the past"))
                } else {
                    Ok(())
                }
            },
        },
    }
}

} // verus!
