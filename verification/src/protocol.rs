//! What the driver answers to a command, and what a build does next.

use vstd::prelude::*;

verus! {

/// The driver's answer to the last command, with the bytes of an info log as
/// `L` (`Vec<u8>` when running, `Seq<u8>` in specifications).
#[derive(Debug, PartialEq, Eq)]
pub enum Reply<L> {
    /// The name of a newly created object.
    Name(u32),
    /// The command ran and gives back nothing.
    Done,
    /// The value of a queried parameter.
    Value(i32),
    /// The bytes of an info log.
    Log(L),
}

/// A reply as it reaches the library.
pub type GlReply = Reply<Vec<u8>>;

impl View for Reply<Vec<u8>> {
    type V = Reply<Seq<u8>>;

    open spec fn view(&self) -> Reply<Seq<u8>> {
        match self {
            Reply::Name(n) => Reply::Name(*n),
            Reply::Done => Reply::Done,
            Reply::Value(v) => Reply::Value(*v),
            Reply::Log(bytes) => Reply::Log(bytes@),
        }
    }
}

/// What a build does next: run the command `C`, or finish with the built
/// object `T` or an error text `M`.
#[derive(Debug, PartialEq, Eq)]
pub enum Step<C, T, M> {
    Issue(C),
    Finish(Result<T, M>),
}

impl<C, T> View for Step<C, T, String> {
    type V = Step<C, T, Seq<char>>;

    open spec fn view(&self) -> Step<C, T, Seq<char>> {
        match self {
            Step::Issue(c) => Step::Issue(*c),
            Step::Finish(Ok(t)) => Step::Finish(Ok(*t)),
            Step::Finish(Err(m)) => Step::Finish(Err(m@)),
        }
    }
}

/// The value OpenGL reports for a boolean parameter that holds.
pub const GL_TRUE: i32 = 1;

} // verus!
