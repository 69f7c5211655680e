//! The command line: which request an argument list stands for, and the
//! dispatch of that request to the task list.
//!
//! The accepted shapes, after the program's own name, are `--all`,
//! `-a <title>`, `-u <id> -c` and `-d <id>`. Everything else is refused.

use vstd::prelude::*;
use crate::error::TodoError;
use crate::model::applied;
use crate::model::refusal;
use crate::model::Request;
use crate::store::answers;
use crate::store::create_todo;
use crate::store::delete_todo;
use crate::store::get_all_todos;
use crate::store::update_todo;
use crate::store::TodoStorage;
use crate::task::Todo;

verus! {

/// A decimal digit.
pub open spec fn is_digit(c: char) -> bool {
    '0' <= c && c <= '9'
}

/// The number that a string of decimal digits denotes.
pub open spec fn digits_value(digits: Seq<char>) -> nat
    decreases digits.len(),
{
    if digits.len() == 0 {
        0
    } else {
        (10 * digits_value(digits.drop_last()) + (digits.last() as nat - '0' as nat)) as nat
    }
}

/// The digits of a numeral: the text without the `+` that may precede it.
pub open spec fn numeral_digits(text: Seq<char>) -> Seq<char> {
    if text.len() > 0 && text[0] == '+' {
        text.skip(1)
    } else {
        text
    }
}

/// A numeral is one or more decimal digits, with an optional `+` in front
/// and nothing else before, between or after them.
pub open spec fn is_numeral(text: Seq<char>) -> bool {
    let digits = numeral_digits(text);
    digits.len() > 0 && forall|i: int| 0 <= i < digits.len() ==> is_digit(#[trigger] digits[i])
}

/// The number that a numeral denotes.
pub open spec fn numeral_value(text: Seq<char>) -> nat {
    digits_value(numeral_digits(text))
}

/// The request that an argument list stands for, if it has one of the
/// accepted shapes. `args[0]` is the program's own name.
pub open spec fn request_of(args: Seq<Seq<char>>) -> Option<Request> {
    if args.len() == 2 && args[1] == "--all"@ {
        Some(Request::List)
    } else if args.len() == 3 && args[1] == "-a"@ && args[2].len() > 0 {
        Some(Request::Add(args[2]))
    } else if args.len() == 4 && args[1] == "-u"@ && args[3] == "-c"@ && is_numeral(args[2]) {
        Some(Request::Complete(numeral_value(args[2])))
    } else if args.len() == 3 && args[1] == "-d"@ && is_numeral(args[2]) {
        Some(Request::Delete(numeral_value(args[2])))
    } else {
        None
    }
}

/// What the text of an id argument turned out to be.
#[derive(Clone, Copy, Debug, PartialEq, Eq, Structural)]
pub enum IdText {
    /// Not a numeral.
    Malformed,
    /// A numeral whose value no list can reach.
    TooLarge,
    /// A numeral with this value.
    Id(usize),
}

/// Reads an id argument: tells whether it is a numeral and, if it is,
/// which number it denotes.
pub fn parse_id(text: &str) -> (parsed: IdText)
    ensures
        (match parsed {
            IdText::Malformed => !is_numeral(text@),
            IdText::TooLarge => is_numeral(text@) && numeral_value(text@) > usize::MAX,
            IdText::Id(id) => is_numeral(text@) && numeral_value(text@) == id,
        }),
{
    let mut value: usize = 0;
    let mut too_large = false;
    let mut signed = false;
    let mut any_digit = false;
    let ghost digits = numeral_digits(text@);
    let ghost mut lead: int = 0;
    for c in iter: text.chars()
        invariant
            iter.seq() == text@,
            digits == numeral_digits(text@),
            lead == (if signed { 1int } else { 0int }),
            lead <= iter.index(),
            signed ==> text@[0] == '+',
            !signed && iter.index() >= 1 ==> text@[0] != '+',
            any_digit == (iter.index() > lead),
            forall|j: int| 0 <= j < iter.index() - lead ==> is_digit(#[trigger] digits[j]),
            !too_large ==> value == digits_value(digits.take(iter.index() - lead)),
            too_large ==> digits_value(digits.take(iter.index() - lead)) > usize::MAX,
    {
        if c == '+' && !signed && !any_digit {
            signed = true;
            proof {
                lead = 1;
            }
        } else {
            let ghost at = iter.index() - lead;
            if !(c >= '0' && c <= '9') {
                assert(!is_digit(digits[at]));
                return IdText::Malformed;
            }
            assert(digits.take(at + 1).drop_last() =~= digits.take(at));
            let digit: usize = (c as u8 - '0' as u8) as usize;
            if !too_large {
                if value > (usize::MAX - digit) / 10 {
                    too_large = true;
                } else {
                    value = value * 10 + digit;
                }
            }
            any_digit = true;
        }
    }
    assert(digits.take(digits.len() as int) =~= digits);
    if !any_digit {
        IdText::Malformed
    } else if too_large {
        IdText::TooLarge
    } else {
        IdText::Id(value)
    }
}

/// Whether an argument is this word.
fn is_word(arg: &String, word: &str) -> (yes: bool)
    ensures
        yes == (arg@ == word@),
{
    let expected: String = word.to_owned();
    *arg == expected
}

/// Carries out the request that the argument list stands for and hands
/// out the records to show. An argument list without an accepted shape is
/// refused and leaves the list untouched.
pub fn process_args(args: &Vec<String>, todo_storage: &mut TodoStorage) -> (result: Result<
    Vec<Todo>,
    TodoError,
>)
    ensures
        (match request_of(args.deep_view()) {
            None => final(todo_storage)@ == old(todo_storage)@ && result == Err::<
                Vec<Todo>,
                TodoError,
            >(TodoError::InvalidArguments),
            Some(request) => final(todo_storage)@ == applied(old(todo_storage)@, request)
                && answers(result, refusal(old(todo_storage)@, request), final(todo_storage)@),
        }),
        old(todo_storage).wf() ==> final(todo_storage).wf(),
{
    let len = args.len();
    if len == 2 && is_word(&args[1], "--all") {
        Ok(get_all_todos(todo_storage))
    } else if len == 3 && is_word(&args[1], "-a") && !args[2].as_str().is_empty() {
        Ok(create_todo(todo_storage, args[2].as_str()))
    } else if len == 4 && is_word(&args[1], "-u") && is_word(&args[3], "-c") {
        match parse_id(args[2].as_str()) {
            IdText::Malformed => Err(TodoError::InvalidArguments),
            IdText::TooLarge => {
                proof {
                    todo_storage.lemma_len_fits();
                }
                todo_storage.renumber();
                Err(TodoError::InvalidId)
            },
            IdText::Id(id) => update_todo(todo_storage, id),
        }
    } else if len == 3 && is_word(&args[1], "-d") {
        match parse_id(args[2].as_str()) {
            IdText::Malformed => Err(TodoError::InvalidArguments),
            IdText::TooLarge => {
                proof {
                    todo_storage.lemma_len_fits();
                }
                todo_storage.renumber();
                Err(TodoError::InvalidId)
            },
            IdText::Id(id) => delete_todo(todo_storage, id),
        }
    } else {
        Err(TodoError::InvalidArguments)
    }
}

} // verus!
