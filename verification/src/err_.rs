//! The uniform system error value.

use vstd::prelude::*;
use crate::err::{message_of, name_of, spec_message_of, spec_name_of, ENOMEM};

verus! {

/// System error: a kernel error number, never zero.
#[derive(Clone, Copy, Debug, PartialEq, Eq, Structural, Hash)]
pub struct Error {
    code: usize,
}

impl View for Error {
    type V = int;

    /// The error number.
    closed spec fn view(&self) -> int {
        self.code as int
    }
}

impl Error {
    #[verifier::type_invariant]
    spec fn nonzero(self) -> bool {
        self.code != 0
    }

    /// The error that carries number `code`.
    pub closed spec fn of(code: usize) -> Error {
        Error { code }
    }

    /// Two errors with one number are one error, and `of` gives the error of
    /// a number.
    pub broadcast proof fn lemma_view(self)
        ensures
            #[trigger] Error::of(self@ as usize) == self,
            0 <= self@ <= usize::MAX,
    {
    }

    /// The number of the error that `of` gives.
    pub broadcast proof fn lemma_of(code: usize)
        ensures
            (#[trigger] Error::of(code))@ == code,
    {
    }

    /// The error that carries number `code`; zero stands for success and is
    /// no error.
    pub fn new(code: usize) -> (e: Option<Error>)
        ensures
            code == 0 <==> e is None,
            code != 0 ==> e == Some(Error::of(code)),
    {
        if code == 0 {
            None
        } else {
            Some(Error { code })
        }
    }

    /// The error that carries the non-zero number `code`.
    pub(crate) fn known(code: usize) -> (e: Error)
        requires
            code != 0,
        ensures
            e == Error::of(code),
            e@ == code,
    {
        Error { code }
    }

    /// Read the signed word that a system call returned: a negative word is
    /// the negated error number, any other word is the successful result.
    pub fn from_sysret(m: isize) -> (r: Result<usize, Error>)
        ensures
            m >= 0 ==> r == Ok::<usize, Error>(m as usize),
            m < 0 ==> r == Err::<usize, Error>(Error::of((-m) as usize)),
            m < 0 ==> r is Err && r->Err_0@ == -m,
    {
        if m == isize::MIN {
            // The one word whose negation does not fit the signed type.
            Err(Error { code: isize::MAX as usize + 1 })
        } else if m < 0 {
            Err(Error { code: (-m) as usize })
        } else {
            Ok(m as usize)
        }
    }

    /// The error that stands for the end of a file: its number is the
    /// greatest machine word.
    pub fn end_of_file() -> (e: Error)
        ensures
            e == Error::of(usize::MAX),
    {
        Error { code: usize::MAX }
    }

    /// The error that stands for a lack of memory: `ENOMEM`.
    pub fn no_memory() -> (e: Error)
        ensures
            e == Error::of(ENOMEM),
    {
        Error { code: ENOMEM }
    }

    /// The error number.
    pub fn code(self) -> (n: usize)
        ensures
            n == self@,
            n != 0,
    {
        proof {
            use_type_invariant(&self);
        }
        self.code
    }

    /// Whether the error carries number `code`.
    pub fn is(self, code: usize) -> (b: bool)
        ensures
            b == (self@ == code),
    {
        self.code == code
    }

    /// The symbolic name of the error; `None` where its number has none.
    pub fn name(self) -> (name: Option<&'static str>)
        ensures
            name == spec_name_of(self@ as usize),
    {
        name_of(self.code)
    }

    /// The message of the error; empty where its number has none.
    pub fn message(self) -> (message: &'static str)
        ensures
            message == spec_message_of(self@ as usize),
    {
        message_of(self.code)
    }
}

} // verus!
