//! What can be wrong with the syntax of a command line.

use vstd::prelude::*;

verus! {

/// The ways in which a command line can fail to parse.
#[derive(Clone, Copy, Debug, PartialEq, Eq, Structural)]
pub enum SyntaxErrorKind {
    /// An option that needs a value came last, with no value after it.
    ArgumentMissing,
    /// The option is not one that the program knows.
    UnrecognizedOption,
    /// An option that has to be given was left out.
    OptionMissing,
    /// An option that may be given once was given again.
    OptionDuplicated,
    /// A flag was given a value.
    UnexpectedArgument,
}

/// A command line that does not parse: what went wrong, and at which option.
#[derive(Clone, Debug, PartialEq, Eq)]
pub struct SyntaxError {
    pub kind: SyntaxErrorKind,
    /// The option's name as the parser reports it, without leading dashes.
    pub option: String,
}

/// A [`SyntaxError`] in specifications.
pub struct SyntaxErrorView {
    pub kind: SyntaxErrorKind,
    pub option: Seq<char>,
}

impl View for SyntaxError {
    type V = SyntaxErrorView;

    open spec fn view(&self) -> SyntaxErrorView {
        SyntaxErrorView { kind: self.kind, option: self.option@ }
    }
}

/// The sentence that reports an error of `kind` at `option`.
pub open spec fn message_text(kind: SyntaxErrorKind, option: Seq<char>) -> Seq<char> {
    match kind {
        SyntaxErrorKind::ArgumentMissing => "Argument to option '"@ + option + "' missing"@,
        SyntaxErrorKind::UnrecognizedOption => "Unrecognized option: '"@ + option + "'"@,
        SyntaxErrorKind::OptionMissing => "Required option '"@ + option + "' missing"@,
        SyntaxErrorKind::OptionDuplicated => "Option '"@ + option + "' given more than once"@,
        SyntaxErrorKind::UnexpectedArgument => "Option '"@ + option
            + "' does not take an argument"@,
    }
}

impl SyntaxError {
    /// The error as a sentence for the user, without a line end.
    pub fn message(&self) -> (text: String)
        ensures
            text@ == message_text(self.kind, self.option@),
    {
        let (before, after) = match self.kind {
            SyntaxErrorKind::ArgumentMissing => ("Argument to option '", "' missing"),
            SyntaxErrorKind::UnrecognizedOption => ("Unrecognized option: '", "'"),
            SyntaxErrorKind::OptionMissing => ("Required option '", "' missing"),
            SyntaxErrorKind::OptionDuplicated => ("Option '", "' given more than once"),
            SyntaxErrorKind::UnexpectedArgument => ("Option '", "' does not take an argument"),
        };
        let mut text = String::from_str(before);
        text.append(self.option.as_str());
        text.append(after);
        text
    }
}

} // verus!
