//! Decoding one input character into a movement command or the quit signal.
use vstd::prelude::*;
use crate::err::BasicSnakeError;

verus! {

/// A decoded command: one of the four cardinal moves, or quit.
#[derive(Copy, Clone, Debug, PartialEq, Eq, Structural)]
pub enum InputKey {
    W,
    S,
    A,
    D,
    Quit,
}

impl InputKey {
    /// What decoding a character yields: 'w', 's', 'a', 'd' are the four
    /// moves, a space quits, and everything else is an unknown key.
    pub open spec fn spec_decoded(c: char) -> Result<InputKey, BasicSnakeError> {
        if c == 'w' {
            Result::Ok(InputKey::W)
        } else if c == 's' {
            Result::Ok(InputKey::S)
        } else if c == 'a' {
            Result::Ok(InputKey::A)
        } else if c == 'd' {
            Result::Ok(InputKey::D)
        } else if c == ' ' {
            Result::Ok(InputKey::Quit)
        } else {
            Result::Err(BasicSnakeError::UnknownKey(c))
        }
    }

    /// Decodes one character; total over all characters.
    pub fn from(c: char) -> (r: Result<InputKey, BasicSnakeError>)
        ensures
            r == Self::spec_decoded(c),
    {
        match c {
            'w' => Result::Ok(InputKey::W),
            's' => Result::Ok(InputKey::S),
            'a' => Result::Ok(InputKey::A),
            'd' => Result::Ok(InputKey::D),
            ' ' => Result::Ok(InputKey::Quit),
            _ => Result::Err(BasicSnakeError::UnknownKey(c)),
        }
    }

    /// Decodes the leading character of a line of input, given as `None`
    /// when the line was empty: an empty line is rejected, anything else is
    /// decoded by character.
    pub fn from_first_char(first: Option<char>) -> (r: Result<InputKey, BasicSnakeError>)
        ensures
            first is None ==> r == Result::<InputKey, BasicSnakeError>::Err(
                BasicSnakeError::EmptyLine,
            ),
            first matches Some(c) ==> r == Self::spec_decoded(c),
    {
        match first {
            Option::None => Result::Err(BasicSnakeError::EmptyLine),
            Option::Some(c) => Self::from(c),
        }
    }
}

} // verus!
