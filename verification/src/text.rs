use crate::error::{DocketError, Invalid};
use vstd::prelude::*;
use vstd::string::StrSliceExecFns;

verus! {

/// Whether `c` is white space: whether it has the Unicode property
/// `White_Space`, by which `str::trim` and `char::is_whitespace` go. These are
/// the 25 characters that the Unicode Character Database lists under it.
pub open spec fn is_white_space(c: char) -> bool {
    let code = c as u32;
    ||| 0x0009 <= code <= 0x000D
    ||| code == 0x0020
    ||| code == 0x0085
    ||| code == 0x00A0
    ||| code == 0x1680
    ||| 0x2000 <= code <= 0x200A
    ||| code == 0x2028
    ||| code == 0x2029
    ||| code == 0x202F
    ||| code == 0x205F
    ||| code == 0x3000
}

/// `s` without its leading and trailing white space.
pub open spec fn trimmed(s: Seq<char>) -> Seq<char>
    decreases s.len(),
{
    if s.len() > 0 && is_white_space(s.first()) {
        trimmed(s.drop_first())
    } else if s.len() > 0 && is_white_space(s.last()) {
        trimmed(s.drop_last())
    } else {
        s
    }
}

/// `str::trim`: the slice of `s` that is left when the white space at both
/// ends is taken away. White space is what has the Unicode property
/// `White_Space`.
#[verifier::external_body]
pub(crate) fn trim(s: &str) -> (t: &str)
    ensures
        t@ == trimmed(s@),
{
    s.trim()
}

/// `String::push`: `c` is put at the end of `text`.
#[verifier::external_body]
pub(crate) fn push_char(text: &mut String, c: char)
    ensures
        final(text)@ == old(text)@.push(c),
{
    text.push(c);
}

/// `String::pop`: the last character is taken off `text` and returned, if
/// there is one.
#[verifier::external_body]
pub(crate) fn pop_char(text: &mut String) -> (c: Option<char>)
    ensures
        final(text)@ == without_last(old(text)@),
        c is Some == (old(text)@.len() > 0),
        c matches Some(last) ==> last == old(text)@.last(),
{
    text.pop()
}

/// `text` without its last character; the empty text stays empty.
pub open spec fn without_last(text: Seq<char>) -> Seq<char> {
    if text.len() > 0 {
        text.drop_last()
    } else {
        text
    }
}

/// `text` with every character in lower case, as Unicode maps it.
pub uninterp spec fn lowercased(text: Seq<char>) -> Seq<char>;

/// `str::to_lowercase`: the result is a function of the characters of `text`
/// alone.
#[verifier::external_body]
pub(crate) fn to_lowercase(text: &str) -> (lower: String)
    ensures
        lower@ == lowercased(text@),
{
    text.to_lowercase()
}

/// Whether two texts hold the same characters.
pub fn same_text(a: &str, b: &str) -> (r: bool)
    ensures
        r == (a@ == b@),
{
    let left = a.to_owned();
    let right = b.to_owned();
    left == right
}

/// The greatest number of characters in the name of a project.
pub const MAX_PROJECT_NAME: usize = 255;

/// The greatest number of characters in the description of a todo.
pub const MAX_TODO_DESCRIPTION: usize = 500;

/// Whether `text`, from which white space was trimmed, is accepted as the name
/// of a project: it is not empty and has 255 characters at most.
pub open spec fn acceptable_project_name(text: Seq<char>) -> bool {
    0 < text.len() <= MAX_PROJECT_NAME
}

/// Whether `text`, from which white space was trimmed, is accepted as the
/// description of a todo: it is not empty and has 500 characters at most.
pub open spec fn acceptable_todo_description(text: Seq<char>) -> bool {
    0 < text.len() <= MAX_TODO_DESCRIPTION
}

/// `text`, or nothing where `text` is empty.
pub fn present<'a>(text: &'a str) -> (r: Option<&'a str>)
    ensures
        match r {
            Some(kept) => kept@ == text@ && text@.len() > 0,
            None => text@.len() == 0,
        },
{
    if text.is_empty() {
        None
    } else {
        Some(text)
    }
}

/// Accepts `text`, from which white space was trimmed, as the name of a
/// project, or refuses it: an empty one with `EmptyProjectName`, one of more
/// than 255 characters with `ProjectNameTooLong`.
pub fn accept_project_name<'a>(text: &'a str) -> (r: Result<&'a str, DocketError>)
    ensures
        match r {
            Ok(kept) => kept@ == text@ && acceptable_project_name(text@),
            Err(e) => !acceptable_project_name(text@) && e == DocketError::ValidationError(
                if text@.len() == 0 {
                    Invalid::EmptyProjectName
                } else {
                    Invalid::ProjectNameTooLong
                },
            ),
        },
{
    if text.is_empty() {
        Err(DocketError::ValidationError(Invalid::EmptyProjectName))
    } else if text.unicode_len() > MAX_PROJECT_NAME {
        Err(DocketError::ValidationError(Invalid::ProjectNameTooLong))
    } else {
        Ok(text)
    }
}

/// Accepts `text`, from which white space was trimmed, as the description of
/// a todo, or refuses it: an empty one with `EmptyTodoDescription`, one of
/// more than 500 characters with `TodoDescriptionTooLong`.
pub fn accept_todo_description<'a>(text: &'a str) -> (r: Result<&'a str, DocketError>)
    ensures
        match r {
            Ok(kept) => kept@ == text@ && acceptable_todo_description(text@),
            Err(e) => !acceptable_todo_description(text@) && e == DocketError::ValidationError(
                if text@.len() == 0 {
                    Invalid::EmptyTodoDescription
                } else {
                    Invalid::TodoDescriptionTooLong
                },
            ),
        },
{
    if text.is_empty() {
        Err(DocketError::ValidationError(Invalid::EmptyTodoDescription))
    } else if text.unicode_len() > MAX_TODO_DESCRIPTION {
        Err(DocketError::ValidationError(Invalid::TodoDescriptionTooLong))
    } else {
        Ok(text)
    }
}

/// Whether nothing but white space stands in `s`.
pub fn is_blank(s: &str) -> (b: bool)
    ensures
        b == (trimmed(s@).len() == 0),
{
    present(trim(s)).is_none()
}

/// An optional text without the white space at its ends, and absent where
/// nothing is left of it.
pub open spec fn normalized(text: Option<Seq<char>>) -> Option<Seq<char>> {
    match text {
        Some(s) => if trimmed(s).len() == 0 {
            None
        } else {
            Some(trimmed(s))
        },
        None => None,
    }
}

/// The characters of an optional text.
pub open spec fn str_view(text: Option<&str>) -> Option<Seq<char>> {
    match text {
        Some(s) => Some(s@),
        None => None,
    }
}

/// An optional text without the white space at its ends, and absent where
/// nothing is left of it.
pub fn normalize<'a>(text: Option<&'a str>) -> (r: Option<&'a str>)
    ensures
        str_view(r) == normalized(str_view(text)),
{
    match text {
        Some(s) => present(trim(s)),
        None => None,
    }
}

/// Whether `name` is accepted as the name of a project, once the white space
/// at its ends is taken away.
pub open spec fn valid_project_name(name: Seq<char>) -> bool {
    acceptable_project_name(trimmed(name))
}

/// The error for a name that is refused.
pub open spec fn project_name_fault(name: Seq<char>) -> DocketError {
    if trimmed(name).len() == 0 {
        DocketError::ValidationError(Invalid::EmptyProjectName)
    } else {
        DocketError::ValidationError(Invalid::ProjectNameTooLong)
    }
}

/// The name of a project as it is stored: without the white space at its ends.
/// An empty name and one of more than 255 characters are refused.
pub fn check_project_name<'a>(name: &'a str) -> (r: Result<&'a str, DocketError>)
    ensures
        match r {
            Ok(t) => t@ == trimmed(name@) && valid_project_name(name@),
            Err(e) => e == project_name_fault(name@) && !valid_project_name(name@),
        },
{
    accept_project_name(trim(name))
}

/// Whether `description` is accepted as the description of a todo, once the
/// white space at its ends is taken away.
pub open spec fn valid_todo_description(description: Seq<char>) -> bool {
    acceptable_todo_description(trimmed(description))
}

/// The error for a description that is refused.
pub open spec fn todo_description_fault(description: Seq<char>) -> DocketError {
    if trimmed(description).len() == 0 {
        DocketError::ValidationError(Invalid::EmptyTodoDescription)
    } else {
        DocketError::ValidationError(Invalid::TodoDescriptionTooLong)
    }
}

/// The description of a todo as it is stored: without the white space at its
/// ends. An empty one and one of more than 500 characters are refused.
pub fn check_todo_description<'a>(description: &'a str) -> (r: Result<&'a str, DocketError>)
    ensures
        match r {
            Ok(t) => t@ == trimmed(description@) && valid_todo_description(description@),
            Err(e) => e == todo_description_fault(description@) && !valid_todo_description(description@),
        },
{
    accept_todo_description(trim(description))
}

} // verus!
