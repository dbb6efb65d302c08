//! Looking up switches and named values in an argument vector.
//!
//! An argument vector is a sequence of tokens, searched as a whole: a program
//! name at index 0 is a token like any other. A flag name matches a token only
//! if the two are equal, character for character.

use crate::error::{ArgError, ArgErrorView};
use vstd::prelude::*;

verus! {

/// `name` occurs among `args`.
pub open spec fn is_present(args: Seq<Seq<char>>, name: Seq<char>) -> bool {
    exists|i: int| 0 <= i < args.len() && args[i] == name
}

/// `i` is the least index at which `name` occurs among `args`.
pub open spec fn is_first_occurrence(args: Seq<Seq<char>>, name: Seq<char>, i: int) -> bool {
    &&& 0 <= i < args.len()
    &&& args[i] == name
    &&& forall|j: int| 0 <= j < i ==> args[j] != name
}

/// The least index at which `name` occurs among `args`, if it occurs at all.
pub open spec fn first_occurrence(args: Seq<Seq<char>>, name: Seq<char>) -> Option<int> {
    if is_present(args, name) {
        Some(choose|i: int| is_first_occurrence(args, name, i))
    } else {
        None
    }
}

/// A flag that occurs has exactly one first occurrence, and `first_occurrence`
/// names it; a flag that does not occur has none.
pub proof fn lemma_first_occurrence(args: Seq<Seq<char>>, name: Seq<char>)
    ensures
        match first_occurrence(args, name) {
            Some(i) => is_first_occurrence(args, name, i),
            None => forall|j: int| 0 <= j < args.len() ==> args[j] != name,
        },
        forall|i: int| is_first_occurrence(args, name, i) ==> first_occurrence(args, name) == Some(i),
{
    if is_present(args, name) {
        let k = choose|i: int| 0 <= i < args.len() && args[i] == name;
        lemma_least_occurrence(args, name, k);
    }
}

/// Below any occurrence of `name` lies a first one.
proof fn lemma_least_occurrence(args: Seq<Seq<char>>, name: Seq<char>, k: int)
    requires
        0 <= k < args.len(),
        args[k] == name,
    ensures
        exists|i: int| is_first_occurrence(args, name, i),
    decreases k,
{
    if exists|j: int| 0 <= j < k && args[j] == name {
        let j = choose|j: int| 0 <= j < k && args[j] == name;
        lemma_least_occurrence(args, name, j);
    } else {
        assert(is_first_occurrence(args, name, k));
    }
}

/// The token that a lookup of `name` reads: the one right after the first
/// occurrence of `name`. Later occurrences are never looked at: a flag whose
/// first occurrence has a token after it has that token as its value, and one
/// whose first occurrence is the last token has none.
pub open spec fn value_token(args: Seq<Seq<char>>, name: Seq<char>) -> Result<
    Seq<char>,
    ArgErrorView,
> {
    match first_occurrence(args, name) {
        None => Err(ArgErrorView::NotFound(name)),
        Some(i) => if i + 1 < args.len() {
            Ok(args[i + 1])
        } else {
            Err(ArgErrorView::MissingValue(name))
        },
    }
}

/// What a lookup makes of a conversion: the value, or the caller's `message`
/// as a conversion error.
pub open spec fn conversion<V>(converted: Option<V>, message: Seq<char>) -> Result<
    V,
    ArgErrorView,
> {
    match converted {
        Some(value) => Ok(value),
        None => Err(ArgErrorView::ConversionError(message)),
    }
}

/// The value of the flag `name` among `args`, as the view of a `T`: the
/// failure to find a token comes first, then the conversion of the token found.
pub open spec fn parameter_value<T: FromArg>(
    args: Seq<Seq<char>>,
    name: Seq<char>,
    message: Seq<char>,
) -> Result<T::V, ArgErrorView> {
    match value_token(args, name) {
        Err(failure) => Err(failure),
        Ok(token) => conversion(T::converted(token), message),
    }
}

/// A result with its value or its error taken by its view.
pub open spec fn outcome<T: View>(result: Result<T, ArgError>) -> Result<T::V, ArgErrorView> {
    match result {
        Ok(value) => Ok(value@),
        Err(error) => Err(error@),
    }
}

/// A type whose values can be written as one command-line token.
pub trait FromArg: Sized + View {
    /// The view of the value that `token` stands for, or `None` if it stands
    /// for none.
    spec fn converted(token: Seq<char>) -> Option<Self::V>;

    /// Converts `token`; why a token does not convert is not reported.
    fn from_arg(token: &str) -> (value: Option<Self>)
        ensures
            match value {
                Some(value) => Self::converted(token@) == Some(value@),
                None => Self::converted(token@) is None,
            },
    ;
}

/// Every token is a string: itself.
impl FromArg for String {
    open spec fn converted(token: Seq<char>) -> Option<Seq<char>> {
        Some(token)
    }

    fn from_arg(token: &str) -> (value: Option<String>) {
        Some(token.to_owned())
    }
}

/// The index of the first token of `args` that equals `parameter`.
pub fn position_of_parameter(args: &[String], parameter: &str) -> (found: Option<usize>)
    ensures
        match found {
            Some(i) => first_occurrence(args.deep_view(), parameter@) == Some(i as int),
            None => first_occurrence(args.deep_view(), parameter@) is None,
        },
{
    let wanted = parameter.to_owned();
    let mut i: usize = 0;
    while i < args.len()
        invariant
            i <= args.len(),
            wanted@ == parameter@,
            forall|j: int| 0 <= j < i ==> args.deep_view()[j] != parameter@,
        decreases args.len() - i,
    {
        if args[i] == wanted {
            proof {
                assert(is_first_occurrence(args.deep_view(), parameter@, i as int));
                lemma_first_occurrence(args.deep_view(), parameter@);
            }
            return Some(i);
        }
        i += 1;
    }
    None
}

/// Whether the switch `parameter` is given: true exactly when some token of
/// `args` equals it. Absence is an answer, not an error.
pub fn get_parameter_switch_from_args(args: &[String], parameter: &str) -> (present: bool)
    ensures
        present == is_present(args.deep_view(), parameter@),
{
    position_of_parameter(args, parameter).is_some()
}

/// The token that holds the value of the flag `parameter`: the one after the
/// flag's first occurrence.
pub fn find_parameter_value<'a>(args: &'a [String], parameter: &str) -> (found: Result<
    &'a str,
    ArgError,
>)
    ensures
        match found {
            Ok(token) => value_token(args.deep_view(), parameter@) == Ok::<Seq<char>, ArgErrorView>(
                token@,
            ),
            Err(error) => value_token(args.deep_view(), parameter@) == Err::<
                Seq<char>,
                ArgErrorView,
            >(error@),
        },
{
    match position_of_parameter(args, parameter) {
        None => Err(ArgError::NotFound(parameter.to_owned())),
        Some(i) => {
            let count = args.len();
            proof {
                lemma_first_occurrence(args.deep_view(), parameter@);
            }
            if i + 1 < count {
                Ok(args[i + 1].as_str())
            } else {
                Err(ArgError::MissingValue(parameter.to_owned()))
            }
        },
    }
}

/// Turns a conversion into the result of a lookup: the value as it is, or,
/// for a token that did not convert, `errormessage` word for word.
pub fn converted_value<T>(converted: Option<T>, errormessage: &str) -> (result: Result<T, ArgError>)
    ensures
        match converted {
            Some(value) => result == Ok::<T, ArgError>(value),
            None => result matches Err(error) && error@ == ArgErrorView::ConversionError(
                errormessage@,
            ),
        },
{
    match converted {
        Some(value) => Ok(value),
        None => Err(ArgError::ConversionError(errormessage.to_owned())),
    }
}

/// The value of the flag `parameter`, converted by `convert`.
///
/// Fails with `NotFound` if no token equals `parameter`, and with
/// `MissingValue` if the first such token is the last of `args`; `convert` is
/// not called then. Otherwise `convert` is called once, on the token after the
/// first occurrence: its value is returned, and its `None` becomes a
/// `ConversionError` that holds `errormessage`.
pub fn get_parameter_value_with<T, F>(
    args: &[String],
    parameter: &str,
    errormessage: &str,
    convert: F,
) -> (result: Result<T, ArgError>) where F: FnOnce(&str) -> Option<T>
    requires
        forall|token: &str|
            value_token(args.deep_view(), parameter@) == Ok::<Seq<char>, ArgErrorView>(token@)
                ==> call_requires(convert, (token,)),
    ensures
        match value_token(args.deep_view(), parameter@) {
            Err(failure) => result matches Err(error) && error@ == failure,
            Ok(text) => exists|token: &str, converted: Option<T>|
                token@ == text && call_ensures(convert, (token,), converted) && match converted {
                    Some(value) => result == Ok::<T, ArgError>(value),
                    None => result matches Err(error) && error@ == ArgErrorView::ConversionError(
                        errormessage@,
                    ),
                },
        },
{
    match find_parameter_value(args, parameter) {
        Err(error) => Err(error),
        Ok(token) => {
            let converted = convert(token);
            converted_value(converted, errormessage)
        },
    }
}

/// The value of the flag `parameter` as a `T`.
///
/// Fails with `NotFound` if no token equals `parameter`; with `MissingValue`
/// if the first such token is the last of `args`; with `ConversionError`,
/// holding `errormessage`, if the token after it does not convert. Otherwise
/// the converted value is returned.
pub fn get_parameter_value_from_args<T: FromArg>(
    args: &[String],
    parameter: &str,
    errormessage: &str,
) -> (result: Result<T, ArgError>)
    ensures
        outcome(result) == parameter_value::<T>(args.deep_view(), parameter@, errormessage@),
{
    get_parameter_value_with(args, parameter, errormessage, T::from_arg)
}

/// When each answer of `value_token` comes: `NotFound` exactly when the flag
/// does not occur, `MissingValue` exactly when its first occurrence is the
/// last token, and a token exactly when that token follows the first
/// occurrence.
pub proof fn lemma_value_token_cases(args: Seq<Seq<char>>, name: Seq<char>)
    ensures
        value_token(args, name) == Err::<Seq<char>, ArgErrorView>(ArgErrorView::NotFound(name))
            <==> !is_present(args, name),
        value_token(args, name) == Err::<Seq<char>, ArgErrorView>(
            ArgErrorView::MissingValue(name),
        ) <==> is_first_occurrence(args, name, args.len() - 1),
        forall|token: Seq<char>|
            value_token(args, name) == Ok::<Seq<char>, ArgErrorView>(token) <==> exists|i: int|
                is_first_occurrence(args, name, i) && i + 1 < args.len() && #[trigger] args[i + 1]
                    == token,
        value_token(args, name) is Ok || value_token(args, name) == Err::<Seq<char>, ArgErrorView>(
            ArgErrorView::NotFound(name),
        ) || value_token(args, name) == Err::<Seq<char>, ArgErrorView>(
            ArgErrorView::MissingValue(name),
        ),
{
    lemma_first_occurrence(args, name);
    assert forall|token: Seq<char>|
        value_token(args, name) == Ok::<Seq<char>, ArgErrorView>(token) implies exists|i: int|
        is_first_occurrence(args, name, i) && i + 1 < args.len() && #[trigger] args[i + 1]
            == token by {
        let i = first_occurrence(args, name).unwrap();
        assert(is_first_occurrence(args, name, i) && i + 1 < args.len() && args[i + 1] == token);
    }
}

/// A lookup succeeds exactly when the flag occurs, a token follows its first
/// occurrence, and that token converts; the value is then the converted token.
pub proof fn lemma_value_found_iff<T: FromArg>(
    args: Seq<Seq<char>>,
    name: Seq<char>,
    message: Seq<char>,
)
    ensures
        parameter_value::<T>(args, name, message) is Ok <==> exists|i: int|
            is_first_occurrence(args, name, i) && i + 1 < args.len() && T::converted(
                #[trigger] args[i + 1],
            ) is Some,
        forall|i: int|
            is_first_occurrence(args, name, i) && i + 1 < args.len() ==> parameter_value::<T>(
                args,
                name,
                message,
            ) == conversion(T::converted(#[trigger] args[i + 1]), message),
        parameter_value::<T>(args, name, message) matches Err(failure) ==> failure
            == ArgErrorView::NotFound(name) || failure == ArgErrorView::MissingValue(name)
            || failure == ArgErrorView::ConversionError(message),
{
    lemma_first_occurrence(args, name);
    if parameter_value::<T>(args, name, message) is Ok {
        let i = first_occurrence(args, name).unwrap();
        assert(is_first_occurrence(args, name, i) && i + 1 < args.len() && T::converted(
            args[i + 1],
        ) is Some);
    }
}

/// Only the first occurrence of a flag counts: two argument vectors that
/// agree up to the token after it give the same value, whatever follows,
/// be it the flag once more with another token after it.
pub proof fn lemma_later_tokens_are_ignored<T: FromArg>(
    args: Seq<Seq<char>>,
    other: Seq<Seq<char>>,
    name: Seq<char>,
    message: Seq<char>,
    i: int,
)
    requires
        is_first_occurrence(args, name, i),
        i + 1 < args.len(),
        i + 1 < other.len(),
        forall|j: int| 0 <= j <= i + 1 ==> other[j] == args[j],
    ensures
        value_token(other, name) == value_token(args, name),
        parameter_value::<T>(other, name, message) == parameter_value::<T>(args, name, message),
{
    assert(is_first_occurrence(other, name, i));
    lemma_first_occurrence(args, name);
    lemma_first_occurrence(other, name);
}

/// A flag that is followed by itself has its own name as its value: the token
/// after the second occurrence is never read in its place.
pub proof fn lemma_repeated_flag_is_its_own_value<T: FromArg>(
    args: Seq<Seq<char>>,
    name: Seq<char>,
    message: Seq<char>,
    i: int,
)
    requires
        is_first_occurrence(args, name, i),
        i + 1 < args.len(),
        args[i + 1] == name,
    ensures
        value_token(args, name) == Ok::<Seq<char>, ArgErrorView>(name),
        parameter_value::<T>(args, name, message) == conversion(T::converted(name), message),
{
    lemma_first_occurrence(args, name);
}

/// The presence test gives the same answer whenever it is asked the same:
/// two answers that meet the contract of `get_parameter_switch_from_args`, for
/// arguments and names that read the same, are equal.
pub proof fn lemma_switch_is_repeatable(
    args: &[String],
    parameter: &str,
    first: bool,
    args_again: &[String],
    parameter_again: &str,
    second: bool,
)
    requires
        args_again.deep_view() == args.deep_view(),
        parameter_again@ == parameter@,
        first == is_present(args.deep_view(), parameter@),
        second == is_present(args_again.deep_view(), parameter_again@),
    ensures
        first == second,
{
}

/// A lookup gives the same result whenever it is asked the same: two results
/// that meet the contract of `get_parameter_value_from_args`, for arguments,
/// names and messages that read the same, are values with the same view, or
/// failures of the same kind with the same text.
pub proof fn lemma_value_is_repeatable<T: FromArg>(
    args: &[String],
    parameter: &str,
    errormessage: &str,
    first: Result<T, ArgError>,
    args_again: &[String],
    parameter_again: &str,
    errormessage_again: &str,
    second: Result<T, ArgError>,
)
    requires
        args_again.deep_view() == args.deep_view(),
        parameter_again@ == parameter@,
        errormessage_again@ == errormessage@,
        outcome(first) == parameter_value::<T>(args.deep_view(), parameter@, errormessage@),
        outcome(second) == parameter_value::<T>(
            args_again.deep_view(),
            parameter_again@,
            errormessage_again@,
        ),
    ensures
        outcome(first) == outcome(second),
        first matches Ok(value) ==> second is Ok && second->Ok_0@ == value@,
        first matches Err(error) ==> second is Err && second->Err_0@ == error@,
{
}

} // verus!
