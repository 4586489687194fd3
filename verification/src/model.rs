//! Mathematical model of token classification and advancement.
//!
//! Every token is a sequence of characters. The model classifies each
//! token into exactly one shape, decides what `parse` returns for it,
//! and decides how far `next_index` may advance past it. The executable
//! functions in the crate root are proved to agree with this model.

use vstd::prelude::*;

verus! {

/// The shape of a single token, one closed variant.
///
/// The four coarse classes are invalid, argument, separator and
/// flag-or-option; a flag-or-option is refined further by whether its
/// value is already attached to the token itself.
pub enum TokenShape {
    /// Begins with three dashes, or exactly with `--=`.
    Invalid,
    /// The lone dash, or any token that does not begin with a dash.
    Argument,
    /// Exactly `--`.
    Separator,
    /// A long flag/option containing `=`: `name` is the part before the
    /// first `=`, `value` the part after it (possibly empty).
    LongAssigned { name: Seq<char>, value: Seq<char> },
    /// A long flag/option without `=`.
    LongBare,
    /// A short flag/option of more than two characters: `name` is the
    /// first two characters, `value` the attached remainder.
    ShortAttached { name: Seq<char>, value: Seq<char> },
    /// A short flag/option of exactly two characters.
    ShortBare,
}

/// The error taxonomy, over sequences of characters.
pub enum ErrorModel {
    InternalArgumentCanNotHaveArgument { arg: Seq<char> },
    InternalSeparatorCanNotHaveArgument,
    InternalInvalidEatCount { eat: int },
    InternalIndexOutOfRange { index: int },
    FlagWithArgument { name: Seq<char> },
    OptionWithoutArgument { name: Seq<char> },
    InvalidArgument { value: Seq<char> },
    UnexpectedSeparator { value: Seq<char> },
    UnknownFlagOrOption { name: Seq<char> },
    InvalidString { s: Seq<char> },
}

/// A token beginning with a dash.
pub open spec fn begins_with_dash(s: Seq<char>) -> bool {
    s.len() >= 1 && s[0] == '-'
}

/// The token `-` alone.
pub open spec fn is_lone_dash(s: Seq<char>) -> bool {
    s.len() == 1 && s[0] == '-'
}

/// A malformed token: three leading dashes, or an empty long name
/// directly before `=`.
pub open spec fn is_invalid(s: Seq<char>) -> bool {
    s.len() >= 3 && s[0] == '-' && s[1] == '-' && (s[2] == '-' || s[2] == '=')
}

/// A positional argument: not invalid, and either the lone dash or a
/// token that does not begin with a dash.
pub open spec fn is_argument(s: Seq<char>) -> bool {
    !is_invalid(s) && (is_lone_dash(s) || !begins_with_dash(s))
}

/// The separator `--` exactly.
pub open spec fn is_separator(s: Seq<char>) -> bool {
    s.len() == 2 && s[0] == '-' && s[1] == '-'
}

/// A flag or option: whatever is neither invalid, an argument, nor the
/// separator.
pub open spec fn is_flag_or_option(s: Seq<char>) -> bool {
    !is_invalid(s) && !is_argument(s) && !is_separator(s)
}

/// The position of the first `=` in the token, if any.
pub open spec fn first_eq_index(s: Seq<char>) -> Option<int>
    decreases s.len(),
{
    if s.len() == 0 {
        None
    } else if s[0] == '=' {
        Some(0)
    } else {
        match first_eq_index(s.drop_first()) {
            Some(i) => Some(i + 1),
            None => None,
        }
    }
}

/// `first_eq_index` finds exactly the first `=`: the returned position
/// holds `=` and nothing before it does; `None` means the token holds
/// no `=` at all.
pub proof fn lemma_first_eq_index(s: Seq<char>)
    ensures
        match first_eq_index(s) {
            Some(i) => 0 <= i < s.len() && s[i] == '=' && (forall|j: int|
                0 <= j < i ==> s[j] != '='),
            None => forall|j: int| 0 <= j < s.len() ==> s[j] != '=',
        },
    decreases s.len(),
{
    if s.len() > 0 && s[0] != '=' {
        lemma_first_eq_index(s.drop_first());
        assert(forall|j: int| 1 <= j < s.len() ==> s[j] == s.drop_first()[j - 1]);
    }
}

/// Classify one token.
pub open spec fn shape_of(s: Seq<char>) -> TokenShape {
    if is_invalid(s) {
        TokenShape::Invalid
    } else if is_argument(s) {
        TokenShape::Argument
    } else if is_separator(s) {
        TokenShape::Separator
    } else if s[1] == '-' {
        match first_eq_index(s) {
            Some(i) => TokenShape::LongAssigned {
                name: s.subrange(0, i),
                value: s.subrange(i + 1, s.len() as int),
            },
            None => TokenShape::LongBare,
        }
    } else if s.len() > 2 {
        TokenShape::ShortAttached { name: s.subrange(0, 2), value: s.subrange(2, s.len() as int) }
    } else {
        TokenShape::ShortBare
    }
}

/// The bare spelling of a flag/option token: any attached `=`-value or
/// prefix-attached suffix is stripped.
pub open spec fn head(s: Seq<char>) -> Seq<char> {
    match shape_of(s) {
        TokenShape::LongAssigned { name, .. } => name,
        TokenShape::ShortAttached { name, .. } => name,
        _ => s,
    }
}

/// The candidate detached value for the token at `index`: the following
/// token, if it exists and is argument-shaped.
pub open spec fn detached_value(argv: Seq<Seq<char>>, index: int) -> Option<Seq<char>> {
    if index + 1 < argv.len() && is_argument(argv[index + 1]) {
        Some(argv[index + 1])
    } else {
        None
    }
}

/// What `parse` returns: the head spelling of the token at `index`
/// together with its attached or candidate detached value.
pub open spec fn parse(argv: Seq<Seq<char>>, index: int) -> Result<
    (Seq<char>, Option<Seq<char>>),
    ErrorModel,
> {
    if !(0 <= index < argv.len()) {
        Err(ErrorModel::InternalIndexOutOfRange { index })
    } else {
        let a = argv[index];
        match shape_of(a) {
            TokenShape::Invalid => Err(ErrorModel::InvalidString { s: a }),
            TokenShape::Argument => Ok((a, None)),
            TokenShape::Separator => Ok((a, None)),
            TokenShape::LongAssigned { name, value } => Ok((name, Some(value))),
            TokenShape::LongBare => Ok((a, detached_value(argv, index))),
            TokenShape::ShortAttached { name, value } => Ok((name, Some(value))),
            TokenShape::ShortBare => Ok((a, detached_value(argv, index))),
        }
    }
}

/// What `next_index` returns: the caller's consumption width `eat`,
/// validated against the true shape of the token at `index`; on success
/// the next index, otherwise the precise diagnosis.
pub open spec fn next_index(argv: Seq<Seq<char>>, index: int, eat: int) -> Result<
    int,
    ErrorModel,
> {
    if !(0 <= index < argv.len()) {
        Err(ErrorModel::InternalIndexOutOfRange { index })
    } else {
        let a = argv[index];
        if eat == 0 {
            Err(
                match shape_of(a) {
                    TokenShape::Invalid => ErrorModel::InvalidString { s: a },
                    TokenShape::Argument => ErrorModel::InvalidArgument { value: a },
                    TokenShape::Separator => ErrorModel::UnexpectedSeparator { value: a },
                    _ => ErrorModel::UnknownFlagOrOption { name: head(a) },
                },
            )
        } else if eat != 1 && eat != 2 {
            Err(ErrorModel::InternalInvalidEatCount { eat })
        } else {
            match shape_of(a) {
                TokenShape::Invalid => Err(ErrorModel::InvalidString { s: a }),
                TokenShape::Argument => if eat == 2 {
                    Err(ErrorModel::InternalArgumentCanNotHaveArgument { arg: a })
                } else {
                    Ok(index + 1)
                },
                TokenShape::Separator => if eat == 2 {
                    Err(ErrorModel::InternalSeparatorCanNotHaveArgument)
                } else {
                    Ok(index + 1)
                },
                TokenShape::LongAssigned { name, .. } => if eat == 1 {
                    Err(ErrorModel::FlagWithArgument { name })
                } else {
                    Ok(index + 1)
                },
                TokenShape::ShortAttached { name, .. } => if eat == 1 {
                    Err(ErrorModel::FlagWithArgument { name })
                } else {
                    Ok(index + 1)
                },
                TokenShape::LongBare | TokenShape::ShortBare => if eat == 1 {
                    Ok(index + 1)
                } else if detached_value(argv, index) is Some {
                    Ok(index + 2)
                } else {
                    Err(ErrorModel::OptionWithoutArgument { name: a })
                },
            }
        }
    }
}

/// What `unwrap_argument` returns: the attached value when present,
/// otherwise the missing-argument error named after the head.
pub open spec fn unwrap_argument(head: Seq<char>, value: Option<Seq<char>>) -> Result<
    Seq<char>,
    ErrorModel,
> {
    match value {
        Some(v) => Ok(v),
        None => Err(ErrorModel::OptionWithoutArgument { name: head }),
    }
}

/// The four classification predicates partition all tokens: an invalid
/// token is nothing else, and every other token is exactly one of
/// argument, separator and flag-or-option.
pub proof fn lemma_classification_partition(s: Seq<char>)
    ensures
        is_invalid(s) ==> !is_argument(s) && !is_separator(s) && !is_flag_or_option(s),
        !is_invalid(s) ==> is_argument(s) || is_separator(s) || is_flag_or_option(s),
        !(is_argument(s) && is_separator(s)),
        !(is_argument(s) && is_flag_or_option(s)),
        !(is_separator(s) && is_flag_or_option(s)),
{
}

/// Legal advancement strictly increases the index and never runs past
/// the end of `argv`, so a caller's loop over a finite `argv`
/// terminates.
pub proof fn lemma_next_index_advances(argv: Seq<Seq<char>>, index: int, eat: int)
    ensures
        next_index(argv, index, eat) matches Ok(n) ==> index < n <= argv.len(),
{
}

} // verus!
