//! The question that asks for yes or no, and what an answer means.

use crate::text::{concat_str, lowercase_of, str_eq, to_lowercase, trim_white, trimmed};
use vstd::prelude::*;
use vstd::string::*;

verus! {

/// The hint that follows the question: the answer that an empty line
/// stands for is written large.
pub open spec fn hint(default: Option<bool>) -> Seq<char> {
    match default {
        Some(true) => " [Y/n]: "@,
        Some(false) => " [y/N]: "@,
        None => " [y/n]: "@,
    }
}

/// What an answer means, once it is trimmed and in lower case: yes, no, or
/// nothing, so that the question is asked again. An empty answer means the
/// default, where there is one.
pub open spec fn meaning(answer: Seq<char>, default: Option<bool>) -> Option<bool> {
    if answer.len() == 0 {
        default
    } else if answer == "y"@ || answer == "yes"@ {
        Some(true)
    } else if answer == "n"@ || answer == "no"@ {
        Some(false)
    } else {
        None
    }
}

/// The question with its hint, as it is shown.
pub fn prompt(question: &str, default: Option<bool>) -> (r: String)
    ensures
        r@ == question@ + hint(default),
{
    match default {
        Some(true) => concat_str(question, " [Y/n]: "),
        Some(false) => concat_str(question, " [y/N]: "),
        None => concat_str(question, " [y/n]: "),
    }
}

/// What an answer means that is trimmed and in lower case already.
pub fn answer_meaning(answer: &str, default: Option<bool>) -> (r: Option<bool>)
    ensures
        r == meaning(answer@, default),
{
    if answer.unicode_len() == 0 {
        default
    } else if str_eq(answer, "y") || str_eq(answer, "yes") {
        Some(true)
    } else if str_eq(answer, "n") || str_eq(answer, "no") {
        Some(false)
    } else {
        None
    }
}

/// What a line that the user typed means: it is trimmed and taken in lower
/// case first.
pub fn read_answer(line: &str, default: Option<bool>) -> (r: Option<bool>)
    ensures
        r == meaning(lowercase_of(trimmed(line@)), default),
{
    let folded = to_lowercase(trim_white(line));
    answer_meaning(folded.as_str(), default)
}

} // verus!
