//! The `getopts` parser as this crate sees it.
//!
//! Nothing in this file is proved. The two `getopts` types are opaque to the
//! verifier; what they hold is named by the functions without a body below,
//! and each wrapper states, over those names, what the `getopts` method it
//! calls does.

use crate::error::{SyntaxError, SyntaxErrorKind, SyntaxErrorView};
use vstd::prelude::*;

verus! {

/// A set of declared options.
#[verifier::external_type_specification]
#[verifier::external_body]
pub struct ExOptions(getopts::Options);

/// What a successful parse found.
#[verifier::external_type_specification]
#[verifier::external_body]
pub struct ExMatches(getopts::Matches);

/// Whether an option takes a value.
#[derive(Clone, Copy, Debug, PartialEq, Eq, Structural)]
pub enum Takes {
    /// A flag: it is given or not.
    Nothing,
    /// The option needs a value.
    Value,
    /// The option may carry a value.
    OptionalValue,
}

/// One declared option: its one-letter name, its long name (either may be
/// empty), and whether it takes a value.
pub struct Declared {
    pub short: Seq<char>,
    pub long: Seq<char>,
    pub takes: Takes,
}

/// The options' values and the positional tokens that a parse found.
pub struct Found {
    /// For each name that is declared, short or long, what the command line
    /// gave for that option, in order: `None` where it came without a value.
    pub given: Map<Seq<char>, Seq<Option<Seq<char>>>>,
    /// The tokens that belong to no option, in order.
    pub free: Seq<Seq<char>>,
}

/// The options that `options` declares, in the order of their declaration.
pub uninterp spec fn declared(options: getopts::Options) -> Seq<Declared>;

/// Whether `options` parses as `Options::new` sets it up (options and
/// positional tokens may be mixed; a long option needs two dashes) and
/// declares only options that may be left out and may not be repeated.
pub uninterp spec fn lenient(options: getopts::Options) -> bool;

/// What `matches` holds for each declared name: see [`Found::given`].
pub uninterp spec fn given(matches: getopts::Matches) -> Map<Seq<char>, Seq<Option<Seq<char>>>>;

/// The positional tokens that `matches` holds, in order.
pub uninterp spec fn free_of(matches: getopts::Matches) -> Seq<Seq<char>>;

/// What `Options::parse` makes of `tokens` when the options are lenient and
/// declare `table`.
pub uninterp spec fn parse_outcome(table: Seq<Declared>, tokens: Seq<Seq<char>>) -> Result<
    Found,
    SyntaxErrorView,
>;

/// Names that `getopts` accepts for one option: the short one is empty or a
/// single ASCII character, the long one is empty or longer than one.
pub open spec fn valid_names(short: Seq<char>, long: Seq<char>) -> bool {
    &&& short.len() == 0 || (short.len() == 1 && short[0] <= '\u{7f}')
    &&& long.len() != 1
}

/// Every option of `table` has a name.
pub open spec fn all_named(table: Seq<Declared>) -> bool {
    forall|i: int|
        0 <= i < table.len() ==> (#[trigger] table[i]).short.len() + table[i].long.len() > 0
}

/// `given` knows every name of `table`.
pub open spec fn knows(given: Map<Seq<char>, Seq<Option<Seq<char>>>>, table: Seq<Declared>) -> bool {
    forall|i: int|
        0 <= i < table.len() ==> {
            &&& (#[trigger] table[i]).short.len() > 0 ==> given.dom().contains(table[i].short)
            &&& table[i].long.len() > 0 ==> given.dom().contains(table[i].long)
        }
}

/// No option was given.
pub open spec fn nothing_given(given: Map<Seq<char>, Seq<Option<Seq<char>>>>) -> bool {
    forall|name: Seq<char>| given.dom().contains(name) ==> (#[trigger] given[name]).len() == 0
}

/// A token that the parser takes for positional wherever it stands: one that
/// does not start with a dash, or the lone dash.
pub open spec fn is_positional(token: Seq<char>) -> bool {
    token.len() <= 1 || token[0] != '-'
}

/// Every token is positional wherever it stands.
pub open spec fn all_positional(tokens: Seq<Seq<char>>) -> bool {
    forall|i: int| 0 <= i < tokens.len() ==> is_positional(#[trigger] tokens[i])
}

/// The result of [`parse_tokens`] in specifications.
pub open spec fn outcome_view(r: Result<getopts::Matches, SyntaxError>) -> Result<
    Found,
    SyntaxErrorView,
> {
    match r {
        Ok(matches) => Ok(Found { given: given(matches), free: free_of(matches) }),
        Err(e) => Err(e@),
    }
}

/// The first of an option's values, if it has one that is a text.
pub open spec fn first_text(values: Seq<Option<Seq<char>>>) -> Option<Seq<char>> {
    if values.len() > 0 {
        values[0]
    } else {
        None
    }
}

/// `getopts::Options::new`: the result declares nothing and is lenient.
#[verifier::external_body]
pub(crate) fn new_options() -> (options: getopts::Options)
    ensures
        declared(options) == Seq::<Declared>::empty(),
        lenient(options),
{
    getopts::Options::new()
}

/// `getopts::Options::optflag`: appends the declaration of a flag. The call
/// panics on names that are not valid, which `requires` leaves out.
#[verifier::external_body]
pub(crate) fn declare_flag(options: &mut getopts::Options, short: &str, long: &str, desc: &str)
    requires
        valid_names(short@, long@),
    ensures
        declared(*final(options)) == declared(*old(options)).push(
            (Declared { short: short@, long: long@, takes: Takes::Nothing }),
        ),
        lenient(*final(options)) == lenient(*old(options)),
{
    options.optflag(short, long, desc);
}

/// `getopts::Options::optopt`: appends the declaration of an option that needs
/// a value. The call panics on names that are not valid.
#[verifier::external_body]
pub(crate) fn declare_value(options: &mut getopts::Options, short: &str, long: &str, desc: &str)
    requires
        valid_names(short@, long@),
    ensures
        declared(*final(options)) == declared(*old(options)).push(
            (Declared { short: short@, long: long@, takes: Takes::Value }),
        ),
        lenient(*final(options)) == lenient(*old(options)),
{
    options.optopt(short, long, desc, "");
}

/// `getopts::Options::optflagopt`: appends the declaration of an option that
/// may carry a value. The call panics on names that are not valid.
#[verifier::external_body]
pub(crate) fn declare_optional_value(
    options: &mut getopts::Options,
    short: &str,
    long: &str,
    desc: &str,
)
    requires
        valid_names(short@, long@),
    ensures
        declared(*final(options)) == declared(*old(options)).push(
            (Declared { short: short@, long: long@, takes: Takes::OptionalValue }),
        ),
        lenient(*final(options)) == lenient(*old(options)),
{
    options.optflagopt(short, long, desc, "");
}

/// `getopts::Options::parse`, with its error moved into a [`SyntaxError`].
///
/// The outcome is the one that [`parse_outcome`] names. Of that outcome the
/// contract claims two things more. Where the parse succeeds, every declared
/// name can be looked up in what it found. And where no token is a dash
/// followed by more, the parse succeeds, every token is positional and no
/// option is given. The call panics on an option without any name, which
/// `requires` leaves out.
#[verifier::external_body]
pub(crate) fn parse_tokens(
    options: &getopts::Options,
    tokens: &Vec<String>,
) -> (r: Result<getopts::Matches, SyntaxError>)
    requires
        lenient(*options),
        all_named(declared(*options)),
    ensures
        outcome_view(r) == parse_outcome(declared(*options), tokens.deep_view()),
        r is Ok ==> knows(given(r->Ok_0), declared(*options)),
        all_positional(tokens.deep_view()) ==> r is Ok && free_of(r->Ok_0) == tokens.deep_view()
            && nothing_given(given(r->Ok_0)),
{
    match options.parse(tokens) {
        Ok(matches) => Ok(matches),
        Err(getopts::Fail::ArgumentMissing(option)) => Err(SyntaxError { kind: SyntaxErrorKind::ArgumentMissing, option }),
        Err(getopts::Fail::UnrecognizedOption(option)) => Err(SyntaxError { kind: SyntaxErrorKind::UnrecognizedOption, option }),
        Err(getopts::Fail::OptionMissing(option)) => Err(SyntaxError { kind: SyntaxErrorKind::OptionMissing, option }),
        Err(getopts::Fail::OptionDuplicated(option)) => Err(SyntaxError { kind: SyntaxErrorKind::OptionDuplicated, option }),
        Err(getopts::Fail::UnexpectedArgument(option)) => Err(SyntaxError { kind: SyntaxErrorKind::UnexpectedArgument, option }),
    }
}

/// `getopts::Matches::opt_present`: whether the option was given. The call
/// panics on a name that is not declared, which `requires` leaves out.
#[verifier::external_body]
pub(crate) fn is_given(matches: &getopts::Matches, name: &str) -> (r: bool)
    requires
        given(*matches).dom().contains(name@),
    ensures
        r == (given(*matches)[name@].len() > 0),
{
    matches.opt_present(name)
}

/// `getopts::Matches::opt_str`: the value of the option's first occurrence,
/// if it was given and had one. The call panics on a name that is not
/// declared, which `requires` leaves out.
#[verifier::external_body]
pub(crate) fn value_of(matches: &getopts::Matches, name: &str) -> (r: Option<String>)
    requires
        given(*matches).dom().contains(name@),
    ensures
        r.deep_view() == first_text(given(*matches)[name@]),
{
    matches.opt_str(name)
}

/// The field `free` of `getopts::Matches`: a copy of the positional tokens.
#[verifier::external_body]
pub(crate) fn positional_tokens(matches: &getopts::Matches) -> (r: Vec<String>)
    ensures
        r.deep_view() == free_of(*matches),
{
    matches.free.clone()
}

} // verus!
