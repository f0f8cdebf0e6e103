//! The recoverable error conditions of `csvpivot` and how each is rendered.
//!
//! The errors fall in two general categories: errors configuring the CSV
//! reader and errors parsing individual records. Configuration errors carry
//! a precise explanation; parsing errors carry the zero-indexed record
//! number at which conversion failed, shown 1-indexed in messages so that
//! record 5 of a CSV with a header row is the sixth line of the document.

use vstd::prelude::*;
use vstd::string::to_string_from_display_ensures;
use crate::decimal::decimal_rep;
use crate::decimal::decimal_string;

verus! {

/// Declares the CSV library's error type, so that values of it can be
/// wrapped and carried; the type is opaque here.
#[verifier::external_type_specification]
#[verifier::external_body]
pub struct ExCsvError(csv::Error);

/// Declares the standard I/O error type, so that values of it can be
/// wrapped and carried; the type is opaque here.
#[verifier::external_type_specification]
#[verifier::external_body]
pub struct ExIoError(std::io::Error);

/// Every recoverable failure of the tool, as one closed type. Each instance
/// is immutable once constructed and is propagated outward until a top-level
/// handler renders it.
#[derive(Debug)]
pub enum CsvPivotError {
    /// Errors from reading a CSV document.
    ///
    /// This should be limited to structural inconsistencies, such as rows
    /// of unequal width, reported by the CSV library.
    CsvError(csv::Error),
    /// Errors in the initial configuration from command-line arguments.
    ///
    /// Most often a problem in how fields are named, but also a delimiter
    /// that does not parse as a single UTF-8 character.
    InvalidConfiguration(String),
    /// A standard I/O error, typically from trying to read a file that does
    /// not exist.
    Io(std::io::Error),
    /// A record's value could not be converted to the aggregation type.
    ///
    /// `line_num` is the zero-indexed record number; messages render it
    /// 1-indexed.
    ParsingError { line_num: usize, err: String },
}

/// The user-facing message for a configuration error, given its explanation.
pub open spec fn invalid_configuration_message(err: Seq<char>) -> Seq<char> {
    "Could not properly configure the aggregator: "@ + err
}

/// The user-facing message for a parsing error: the zero-indexed record
/// number is rendered 1-indexed.
pub open spec fn parsing_error_message(line_num: nat, err: Seq<char>) -> Seq<char> {
    "Could not parse record "@ + decimal_rep(line_num + 1) + ": "@ + err
}

/// Relies on `csv::Error`'s `std::error::Error` impl, for the wrapped
/// error's own short description: `csv::Error` takes the default
/// `description`, so nothing more is stated of the result.
#[verifier::external_body]
#[allow(deprecated)]
fn csv_error_description(e: &csv::Error) -> (r: String) {
    std::error::Error::description(e).to_owned()
}

/// Relies on `std::io::Error`'s `std::error::Error` impl, for the wrapped
/// error's own short description: the text depends on how the value was
/// made, so nothing more is stated of the result.
#[verifier::external_body]
#[allow(deprecated)]
fn io_error_description(e: &std::io::Error) -> (r: String) {
    std::error::Error::description(e).to_owned()
}

impl CsvPivotError {
    /// Renders the error as the message shown to the user.
    ///
    /// The two wrapping variants delegate verbatim to the wrapped error's
    /// own rendering; the other two produce fixed templates.
    pub fn message(&self) -> (r: String)
        ensures
            (self matches CsvPivotError::CsvError(e) ==> to_string_from_display_ensures::<
                csv::Error,
            >(&e, r)),
            (self matches CsvPivotError::Io(e) ==> to_string_from_display_ensures::<
                std::io::Error,
            >(&e, r)),
            (self matches CsvPivotError::InvalidConfiguration(err) ==> r@
                == invalid_configuration_message(err@)),
            (self matches CsvPivotError::ParsingError { line_num, err } ==> r@
                == parsing_error_message(line_num as nat, err@)),
    {
        match self {
            CsvPivotError::CsvError(e) => e.to_string(),
            CsvPivotError::Io(e) => e.to_string(),
            CsvPivotError::InvalidConfiguration(err) => {
                let mut s = String::from_str("Could not properly configure the aggregator: ");
                s.append(err.as_str());
                s
            },
            CsvPivotError::ParsingError { line_num, err } => {
                let record = decimal_string(*line_num as u128 + 1);
                let mut s = String::from_str("Could not parse record ");
                s.append(record.as_str());
                s.append(": ");
                s.append(err.as_str());
                proof {
                    assert(s@ =~= parsing_error_message(*line_num as nat, err@));
                }
                s
            },
        }
    }

    /// A terse category label per variant, for programmatic classification.
    ///
    /// The two wrapping variants delegate to the wrapped error's own short
    /// description; the other two return fixed strings.
    pub fn description(&self) -> (r: String)
        ensures
            (self is InvalidConfiguration ==> r@ == "could not configure the aggregator"@),
            (self is ParsingError ==> r@ == "failed to parse values column"@),
    {
        match self {
            CsvPivotError::CsvError(e) => csv_error_description(e),
            CsvPivotError::Io(e) => io_error_description(e),
            CsvPivotError::InvalidConfiguration(_) => String::from_str(
                "could not configure the aggregator",
            ),
            CsvPivotError::ParsingError { .. } => String::from_str(
                "failed to parse values column",
            ),
        }
    }
}

impl From<std::io::Error> for CsvPivotError {
    /// Promotes an I/O failure into the taxonomy, as the `Io` variant.
    fn from(err: std::io::Error) -> (r: CsvPivotError)
        ensures
            r == CsvPivotError::Io(err),
    {
        CsvPivotError::Io(err)
    }
}

impl vstd::std_specs::convert::FromSpecImpl<std::io::Error> for CsvPivotError {
    open spec fn obeys_from_spec() -> bool {
        true
    }

    open spec fn from_spec(v: std::io::Error) -> CsvPivotError {
        CsvPivotError::Io(v)
    }
}

impl From<csv::Error> for CsvPivotError {
    /// Promotes a CSV-library failure into the taxonomy, as the `CsvError`
    /// variant.
    fn from(err: csv::Error) -> (r: CsvPivotError)
        ensures
            r == CsvPivotError::CsvError(err),
    {
        CsvPivotError::CsvError(err)
    }
}

impl vstd::std_specs::convert::FromSpecImpl<csv::Error> for CsvPivotError {
    open spec fn obeys_from_spec() -> bool {
        true
    }

    open spec fn from_spec(v: csv::Error) -> CsvPivotError {
        CsvPivotError::CsvError(v)
    }
}

/// Law: an I/O failure promoted by the standard conversion is represented
/// as the `Io` variant, holding the failure unchanged, so that no call site
/// needs to wrap it by hand.
pub proof fn lemma_io_promotion(e: std::io::Error)
    ensures
        <CsvPivotError as vstd::std_specs::convert::FromSpec<std::io::Error>>::obeys_from_spec(),
        <CsvPivotError as vstd::std_specs::convert::FromSpec<std::io::Error>>::from_spec(e)
            == CsvPivotError::Io(e),
{
}

/// Law: a CSV-library failure promoted by the standard conversion is
/// represented as the `CsvError` variant, holding the failure unchanged, so
/// that no call site needs to wrap it by hand.
pub proof fn lemma_csv_promotion(e: csv::Error)
    ensures
        <CsvPivotError as vstd::std_specs::convert::FromSpec<csv::Error>>::obeys_from_spec(),
        <CsvPivotError as vstd::std_specs::convert::FromSpec<csv::Error>>::from_spec(e)
            == CsvPivotError::CsvError(e),
{
}

} // verus!
