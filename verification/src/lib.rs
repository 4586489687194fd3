//! A schema-free command-line token classifier and advancement
//! protocol.
//!
//! Each step over `argv` asks two questions. `parse` answers "what is
//! this token?": it classifies the token at an index and extracts any
//! value attached to it or standing next to it. `next_index` answers
//! "how far do I move?": the caller states how many slots its chosen
//! interpretation consumes, and the advancer either confirms that
//! against the token's true shape or rejects it with a precise error.
//! Classification never consumes; advancement always validates before
//! consuming.
//!
//! Every public function is proved equal to the mathematical model in
//! [`model`].

use vstd::prelude::*;
use vstd::string::StrSliceExecFns;

pub mod model;

verus! {

/// The closed error taxonomy.
///
/// The `Internal` variants report a caller or schema bug (an index or
/// eat count inconsistent with the protocol); the others report
/// malformed user input and carry the offending token or name.
#[derive(Debug, PartialEq)]
pub enum ParseError {
    InternalArgumentCanNotHaveArgument { arg: String },
    InternalSeparatorCanNotHaveArgument,
    InternalInvalidEatCount { eat: usize },
    InternalIndexOutOfRange { index: usize },
    FlagWithArgument { name: String },
    OptionWithoutArgument { name: String },
    InvalidArgument { value: String },
    UnexpectedSeparator { value: String },
    UnknownFlagOrOption { name: String },
    InvalidString { s: String },
}

impl View for ParseError {
    type V = model::ErrorModel;

    open spec fn view(&self) -> model::ErrorModel {
        match self {
            ParseError::InternalArgumentCanNotHaveArgument { arg } => (
                model::ErrorModel::InternalArgumentCanNotHaveArgument { arg: arg@ }
            ),
            ParseError::InternalSeparatorCanNotHaveArgument => (
                model::ErrorModel::InternalSeparatorCanNotHaveArgument
            ),
            ParseError::InternalInvalidEatCount { eat } => (
                model::ErrorModel::InternalInvalidEatCount { eat: *eat as int }
            ),
            ParseError::InternalIndexOutOfRange { index } => (
                model::ErrorModel::InternalIndexOutOfRange { index: *index as int }
            ),
            ParseError::FlagWithArgument { name } => (
                model::ErrorModel::FlagWithArgument { name: name@ }
            ),
            ParseError::OptionWithoutArgument { name } => (
                model::ErrorModel::OptionWithoutArgument { name: name@ }
            ),
            ParseError::InvalidArgument { value } => (
                model::ErrorModel::InvalidArgument { value: value@ }
            ),
            ParseError::UnexpectedSeparator { value } => (
                model::ErrorModel::UnexpectedSeparator { value: value@ }
            ),
            ParseError::UnknownFlagOrOption { name } => (
                model::ErrorModel::UnknownFlagOrOption { name: name@ }
            ),
            ParseError::InvalidString { s } => (
                model::ErrorModel::InvalidString { s: s@ }
            ),
        }
    }
}

/// True iff the token is malformed: it begins with three or more
/// dashes, or begins exactly with `--=`.
pub fn is_invalid(a: &str) -> (r: bool)
    ensures
        r == model::is_invalid(a@),
{
    let n = a.unicode_len();
    n >= 3 && a.get_char(0) == '-' && a.get_char(1) == '-' && {
        let c2 = a.get_char(2);
        c2 == '-' || c2 == '='
    }
}

/// True iff the token is a positional argument: not invalid, and
/// either the lone dash or a token that does not begin with a dash.
pub fn is_argument(a: &str) -> (r: bool)
    ensures
        r == model::is_argument(a@),
{
    if is_invalid(a) {
        return false;
    }
    let n = a.unicode_len();
    n == 0 || a.get_char(0) != '-' || n == 1
}

/// True iff the token is the separator `--` exactly.
pub fn is_separator(a: &str) -> (r: bool)
    ensures
        r == model::is_separator(a@),
{
    a.unicode_len() == 2 && a.get_char(0) == '-' && a.get_char(1) == '-'
}

/// True iff the token is a flag or option: neither invalid, an
/// argument, nor the separator.
pub fn is_flag_or_option(a: &str) -> (r: bool)
    ensures
        r == model::is_flag_or_option(a@),
{
    !is_invalid(a) && !is_argument(a) && !is_separator(a)
}

/// Finds the position of the first `=` in the token, if any.
fn find_eq(a: &str) -> (r: Option<usize>)
    ensures
        match r {
            Some(i) => model::first_eq_index(a@) == Some(i as int) && i < a@.len(),
            None => model::first_eq_index(a@) is None,
        },
{
    let n = a.unicode_len();
    let mut k: usize = 0;
    while k < n
        invariant
            n == a@.len(),
            k <= n,
            forall|j: int| 0 <= j < k ==> a@[j] != '=',
        decreases n - k,
    {
        if a.get_char(k) == '=' {
            proof {
                model::lemma_first_eq_index(a@);
            }
            return Some(k);
        }
        k = k + 1;
    }
    proof {
        model::lemma_first_eq_index(a@);
    }
    None
}

/// The candidate detached value for the token at `index`: the
/// following token, if it exists and is argument-shaped.
fn detached_value<'s>(argv: &[&'s str], index: usize) -> (r: Option<&'s str>)
    requires
        index < argv@.len(),
    ensures
        r.deep_view() == model::detached_value(argv.deep_view(), index as int),
{
    let n = argv.len();
    if index + 1 < n && is_argument(argv[index + 1]) {
        Some(argv[index + 1])
    } else {
        None
    }
}

/// How an executable `parse` result realises its model: same success
/// or failure, same head, same value, same error.
pub open spec fn parse_obeys_model(
    r: Result<(&str, Option<&str>), ParseError>,
    m: Result<(Seq<char>, Option<Seq<char>>), model::ErrorModel>,
) -> bool {
    match (r, m) {
        (Ok(p), Ok(q)) => p.0@ == q.0 && p.1.deep_view() == q.1,
        (Err(e), Err(f)) => e@ == f,
        _ => false,
    }
}

/// Classifies the token at `index` and returns its head spelling
/// together with its attached value, or its candidate detached value
/// (the next token, when argument-shaped) for a long or short
/// flag/option written without one. The candidate is not consumed
/// here; consumption is decided only by `next_index`.
pub fn parse<'s>(argv: &[&'s str], index: usize) -> (r: Result<
    (&'s str, Option<&'s str>),
    ParseError,
>)
    ensures
        parse_obeys_model(r, model::parse(argv.deep_view(), index as int)),
{
    if index >= argv.len() {
        return Err(ParseError::InternalIndexOutOfRange { index });
    }
    let a: &'s str = argv[index];
    if is_invalid(a) {
        return Err(ParseError::InvalidString { s: a.to_owned() });
    }
    if is_argument(a) || is_separator(a) {
        return Ok((a, None));
    }
    let n = a.unicode_len();
    if a.get_char(1) == '-' {
        match find_eq(a) {
            Some(i) => Ok((a.substring_char(0, i), Some(a.substring_char(i + 1, n)))),
            None => Ok((a, detached_value(argv, index))),
        }
    } else {
        if n > 2 {
            Ok((a.substring_char(0, 2), Some(a.substring_char(2, n))))
        } else {
            Ok((a, detached_value(argv, index)))
        }
    }
}

/// The bare spelling of a flag/option token, with any attached
/// `=`-value or prefix-attached suffix stripped, as an owned string.
fn head_of(a: &str) -> (r: String)
    requires
        model::is_flag_or_option(a@),
    ensures
        r@ == model::head(a@),
{
    let n = a.unicode_len();
    if a.get_char(1) == '-' {
        match find_eq(a) {
            Some(i) => a.substring_char(0, i).to_owned(),
            None => a.to_owned(),
        }
    } else {
        if n > 2 {
            a.substring_char(0, 2).to_owned()
        } else {
            a.to_owned()
        }
    }
}

/// Validates the caller's consumption width `eat` for the token at
/// `index` against the token's true shape and returns the next index
/// on success. `eat` must be 0 (no rule matched the token: the result
/// is the most specific diagnosis), 1 (a single slot: a flag, an
/// argument, or the separator) or 2 (an option together with its
/// value, attached or detached). A successful result is always `index
/// + 1` or `index + 2`, never a stall.
pub fn next_index(argv: &[&str], index: usize, eat: usize) -> (r: Result<usize, ParseError>)
    ensures
        ({
            let m = model::next_index(argv.deep_view(), index as int, eat as int);
            match r {
                Ok(n) => m == Ok::<int, model::ErrorModel>(n as int),
                Err(e) => m == Err::<int, model::ErrorModel>(e@),
            }
        }),
{
    if index >= argv.len() {
        return Err(ParseError::InternalIndexOutOfRange { index });
    }
    let a = argv[index];
    if eat == 0 {
        if is_invalid(a) {
            Err(ParseError::InvalidString { s: a.to_owned() })
        } else if is_argument(a) {
            Err(ParseError::InvalidArgument { value: a.to_owned() })
        } else if is_separator(a) {
            Err(ParseError::UnexpectedSeparator { value: a.to_owned() })
        } else {
            Err(ParseError::UnknownFlagOrOption { name: head_of(a) })
        }
    } else if eat != 1 && eat != 2 {
        Err(ParseError::InternalInvalidEatCount { eat })
    } else if is_invalid(a) {
        Err(ParseError::InvalidString { s: a.to_owned() })
    } else if is_argument(a) {
        if eat == 2 {
            Err(ParseError::InternalArgumentCanNotHaveArgument { arg: a.to_owned() })
        } else {
            Ok(index + 1)
        }
    } else if is_separator(a) {
        if eat == 2 {
            Err(ParseError::InternalSeparatorCanNotHaveArgument)
        } else {
            Ok(index + 1)
        }
    } else {
        let n = a.unicode_len();
        if a.get_char(1) == '-' {
            match find_eq(a) {
                Some(i) => {
                    if eat == 1 {
                        Err(ParseError::FlagWithArgument { name: a.substring_char(0, i).to_owned() })
                    } else {
                        Ok(index + 1)
                    }
                },
                None => {
                    if eat == 1 {
                        Ok(index + 1)
                    } else if detached_value(argv, index).is_some() {
                        Ok(index + 2)
                    } else {
                        Err(ParseError::OptionWithoutArgument { name: a.to_owned() })
                    }
                },
            }
        } else if n > 2 {
            if eat == 1 {
                Err(ParseError::FlagWithArgument { name: a.substring_char(0, 2).to_owned() })
            } else {
                Ok(index + 1)
            }
        } else {
            if eat == 1 {
                Ok(index + 1)
            } else if detached_value(argv, index).is_some() {
                Ok(index + 2)
            } else {
                Err(ParseError::OptionWithoutArgument { name: a.to_owned() })
            }
        }
    }
}

/// Turns the pair returned by `parse` into a mandatory value: the
/// attached value when present, otherwise the missing-argument error
/// named after the head.
pub fn unwrap_argument<'s>(parse_result: (&'s str, Option<&'s str>)) -> (r: Result<
    &'s str,
    ParseError,
>)
    ensures
        ({
            let m = model::unwrap_argument(parse_result.0@, parse_result.1.deep_view());
            match r {
                Ok(v) => m == Ok::<Seq<char>, model::ErrorModel>(v@),
                Err(e) => m == Err::<Seq<char>, model::ErrorModel>(e@),
            }
        }),
{
    match parse_result.1 {
        Some(a) => Ok(a),
        None => Err(ParseError::OptionWithoutArgument { name: parse_result.0.to_owned() }),
    }
}

} // verus!
