//! The error taxonomy of the game's input path, and recovery from a result.
use vstd::prelude::*;
use vstd::string::StringExecFns;

verus! {

/// An error with a diagnostic message.
pub trait SnakeError {
    /// The characters of the diagnostic message.
    spec fn spec_error(&self) -> Seq<char>;

    /// The diagnostic message.
    fn get_error(&self) -> (r: String)
        ensures
            r@ == self.spec_error(),
    ;
}

/// A result whose value can be taken where the error case is ruled out.
pub trait SnakeErrorRecoverable<T> {
    /// The error case is ruled out.
    spec fn spec_recoverable(&self) -> bool;

    /// The value held in the non-error case.
    spec fn spec_recovered(&self) -> T;

    /// Takes the value out; callers must rule the error case out first.
    fn recover_or_panic(self) -> (r: T)
        requires
            self.spec_recoverable(),
        ensures
            r == self.spec_recovered(),
    ;
}

impl<T> SnakeErrorRecoverable<T> for Result<T, BasicSnakeError> {
    open spec fn spec_recoverable(&self) -> bool {
        self is Ok
    }

    open spec fn spec_recovered(&self) -> T {
        self->Ok_0
    }

    fn recover_or_panic(self) -> (r: T) {
        match self {
            Result::Ok(t) => t,
            Result::Err(_) => vstd::pervasive::unreached(),
        }
    }
}

/// The three ways reading a command can fail: an unrecognized first
/// character, an empty line, or a failed read (carrying the reader's own
/// message).
#[derive(Debug, PartialEq, Eq)]
pub enum BasicSnakeError {
    UnknownKey(char),
    EmptyLine,
    CantReadLine(String),
}

impl SnakeError for BasicSnakeError {
    open spec fn spec_error(&self) -> Seq<char> {
        match self {
            BasicSnakeError::UnknownKey(c) => "Unknown key pressed '"@ + seq![*c] + "'."@,
            BasicSnakeError::EmptyLine => "Failed to parse input from line because its empty!"@,
            BasicSnakeError::CantReadLine(m) => m@,
        }
    }

    fn get_error(&self) -> (r: String) {
        match self {
            BasicSnakeError::UnknownKey(c) => {
                let mut s = "Unknown key pressed '".to_owned();
                push_char(&mut s, *c);
                s.append("'.");
                s
            },
            BasicSnakeError::EmptyLine => {
                "Failed to parse input from line because its empty!".to_owned()
            },
            BasicSnakeError::CantReadLine(m) => m.clone(),
        }
    }
}

/// Relies on `String::push`: it appends exactly the one given character.
#[verifier::external_body]
fn push_char(s: &mut String, c: char)
    ensures
        final(s)@ == old(s)@ + seq![c],
{
    s.push(c);
}

} // verus!
