//! The answer of the greeting endpoint.

use vstd::prelude::*;

verus! {

/// The greeting for a caller who may have given a name.
pub open spec fn greeting_text(name: Option<Seq<char>>) -> Seq<char> {
    match name {
        Some(name) => "Hello, "@ + name + "!"@,
        None => "Hello!"@,
    }
}

/// The name of a caller, if one was given, as a sequence of characters.
pub open spec fn name_text(name: Option<&str>) -> Option<Seq<char>> {
    match name {
        Some(name) => Some(name@),
        None => None,
    }
}

/// Greets the caller: by name where one was given, used as it came.
pub fn greeting(name: Option<&str>) -> (text: String)
    ensures
        text@ == greeting_text(name_text(name)),
{
    match name {
        Some(name) => {
            let mut text = "Hello, ".to_owned();
            text.append(name);
            text.append("!");
            text
        },
        None => "Hello!".to_owned(),
    }
}

} // verus!
