//! What the program does with a command line: print something and stop, or
//! run the engine.

use crate::banner::{
    full_version_text, print_full_version, print_usage, print_version, version_text, BuildInfo,
    BuildInfoView, NO_INPUT, USAGE,
};
use crate::error::{message_text, SyntaxError, SyntaxErrorView};
use crate::normalize::{normalize, normalize_spec, result_view};
use crate::options::{
    only_positional, resolve_spec, well_formed, ParsedOptions, ParsedOptionsView,
};
use crate::parser::all_positional;
use vstd::prelude::*;

verus! {

/// What a resolved configuration calls for.
#[derive(Clone, Copy, Debug, PartialEq, Eq, Structural)]
pub enum Directive {
    /// Print the version and stop.
    PrintVersion,
    /// Print the banner and the usage and stop.
    PrintHelp,
    /// The command line was empty: print the banner and the usage, and fail.
    MissingArguments,
    /// Nothing to read was named: complain, print the usage, and fail.
    NoInputFiles,
    /// Run the engine.
    Run,
}

/// Where a text is printed.
#[derive(Clone, Copy, Debug, PartialEq, Eq, Structural)]
pub enum Stream {
    /// Standard output.
    Stdout,
    /// Standard error.
    Stderr,
}

/// The exit code for a command line that does not parse.
pub const EXIT_SYNTAX: i32 = 2;

/// The exit code for a command line that names nothing to read.
pub const EXIT_NO_INPUT: i32 = 1;

/// The exit code after printing what the user asked for.
pub const EXIT_OK: i32 = 0;

/// What the configuration calls for. A request for the version comes before
/// one for help, that before the complaint about an empty command line, and
/// that before the complaint about missing input.
pub open spec fn directive_of(options: ParsedOptionsView) -> Directive {
    if options.print_version {
        Directive::PrintVersion
    } else if options.print_help {
        Directive::PrintHelp
    } else if options.missing_arguments {
        Directive::MissingArguments
    } else if !options.using_stdin && options.files.len() == 0 {
        Directive::NoInputFiles
    } else {
        Directive::Run
    }
}

/// The code that the program exits with; `None` where the engine decides.
pub open spec fn exit_code_of(directive: Directive) -> Option<i32> {
    match directive {
        Directive::PrintVersion => Some(EXIT_OK),
        Directive::PrintHelp => Some(EXIT_OK),
        Directive::MissingArguments => Some(EXIT_NO_INPUT),
        Directive::NoInputFiles => Some(EXIT_NO_INPUT),
        Directive::Run => None,
    }
}

/// The stream that the text of a directive goes to: what the user asked
/// for goes to standard output, a complaint to standard error.
pub open spec fn stream_of(directive: Directive) -> Stream {
    match directive {
        Directive::PrintVersion => Stream::Stdout,
        Directive::PrintHelp => Stream::Stdout,
        _ => Stream::Stderr,
    }
}

/// The text that is printed for a directive. With the complaint about
/// missing input the banner is printed only where `verbose` was asked for.
pub open spec fn text_of(directive: Directive, verbose: bool, build: BuildInfoView) -> Seq<char> {
    match directive {
        Directive::PrintVersion => version_text(build),
        Directive::PrintHelp => full_version_text(build) + USAGE@,
        Directive::MissingArguments => full_version_text(build) + USAGE@,
        Directive::NoInputFiles => NO_INPUT@ + (if verbose {
            full_version_text(build)
        } else {
            Seq::empty()
        }) + USAGE@,
        Directive::Run => Seq::empty(),
    }
}

impl Directive {
    /// The code that the program exits with; `None` where the engine decides.
    pub fn exit_code(&self) -> (code: Option<i32>)
        ensures
            code == exit_code_of(*self),
    {
        match self {
            Directive::PrintVersion => Some(EXIT_OK),
            Directive::PrintHelp => Some(EXIT_OK),
            Directive::MissingArguments => Some(EXIT_NO_INPUT),
            Directive::NoInputFiles => Some(EXIT_NO_INPUT),
            Directive::Run => None,
        }
    }

    /// The stream that the text of the directive goes to.
    pub fn stream(&self) -> (stream: Stream)
        ensures
            stream == stream_of(*self),
    {
        match self {
            Directive::PrintVersion => Stream::Stdout,
            Directive::PrintHelp => Stream::Stdout,
            _ => Stream::Stderr,
        }
    }

    /// The text that is printed for the directive.
    pub fn text(&self, verbose: bool, build: &BuildInfo) -> (text: String)
        ensures
            text@ == text_of(*self, verbose, build@),
    {
        let mut text = String::new();
        match self {
            Directive::PrintVersion => {
                print_version(&mut text, build);
            },
            Directive::PrintHelp => {
                print_full_version(&mut text, build);
                print_usage(&mut text);
            },
            Directive::MissingArguments => {
                print_full_version(&mut text, build);
                print_usage(&mut text);
            },
            Directive::NoInputFiles => {
                text.append(NO_INPUT);
                if verbose {
                    print_full_version(&mut text, build);
                }
                print_usage(&mut text);
            },
            Directive::Run => {},
        }
        assert(text@ =~= text_of(*self, verbose, build@));
        text
    }
}

impl ParsedOptions {
    /// What the configuration calls for.
    pub fn directive(&self) -> (d: Directive)
        ensures
            d == directive_of(self@),
    {
        if self.print_version {
            Directive::PrintVersion
        } else if self.print_help {
            Directive::PrintHelp
        } else if self.missing_arguments {
            Directive::MissingArguments
        } else if !self.using_stdin && self.files.len() == 0 {
            Directive::NoInputFiles
        } else {
            Directive::Run
        }
    }
}

/// What the program does next.
#[derive(Clone, Debug, PartialEq, Eq)]
pub enum Plan {
    /// Hand the configuration to the engine and exit with its status.
    Run(ParsedOptions),
    /// Print `text` to `stream` and exit with `code`.
    Exit { code: i32, stream: Stream, text: String },
}

/// A [`Plan`] in specifications.
pub enum PlanView {
    Run(ParsedOptionsView),
    Exit { code: i32, stream: Stream, text: Seq<char> },
}

impl View for Plan {
    type V = PlanView;

    open spec fn view(&self) -> PlanView {
        match self {
            Plan::Run(options) => PlanView::Run(options@),
            Plan::Exit { code, stream, text } => PlanView::Exit {
                code: *code,
                stream: *stream,
                text: text@,
            },
        }
    }
}

/// The plan that follows from the outcome of normalisation. A syntax error
/// is reported on standard error, on a line of its own, with exit code 2.
pub open spec fn plan_spec(
    outcome: Result<ParsedOptionsView, SyntaxErrorView>,
    build: BuildInfoView,
) -> PlanView {
    match outcome {
        Err(e) => PlanView::Exit {
            code: EXIT_SYNTAX,
            stream: Stream::Stderr,
            text: message_text(e.kind, e.option) + "\n"@,
        },
        Ok(options) => {
            let directive = directive_of(options);
            match exit_code_of(directive) {
                Some(code) => PlanView::Exit {
                    code,
                    stream: stream_of(directive),
                    text: text_of(directive, options.verbose, build),
                },
                None => PlanView::Run(options),
            }
        },
    }
}

/// The engine is run only on a configuration that was resolved without a
/// syntax error, that asks neither for the version nor for help, and that
/// names something to read.
pub proof fn lemma_run_has_input(
    outcome: Result<ParsedOptionsView, SyntaxErrorView>,
    build: BuildInfoView,
)
    requires
        plan_spec(outcome, build) is Run,
    ensures
        outcome is Ok,
        plan_spec(outcome, build)->Run_0 == outcome->Ok_0,
        outcome->Ok_0.using_stdin || outcome->Ok_0.files.len() > 0,
        !outcome->Ok_0.print_version,
        !outcome->Ok_0.print_help,
        !outcome->Ok_0.missing_arguments,
{
}

/// Decides what the program does, given the outcome of normalisation.
pub fn plan_for(outcome: Result<ParsedOptions, SyntaxError>, build: &BuildInfo) -> (plan: Plan)
    ensures
        plan@ == plan_spec(result_view(outcome), build@),
{
    match outcome {
        Err(e) => {
            let mut text = e.message();
            text.append("\n");
            Plan::Exit { code: EXIT_SYNTAX, stream: Stream::Stderr, text }
        },
        Ok(options) => {
            let directive = options.directive();
            match directive.exit_code() {
                Some(code) => Plan::Exit {
                    code,
                    stream: directive.stream(),
                    text: directive.text(options.verbose, build),
                },
                None => Plan::Run(options),
            }
        },
    }
}

/// Decides what the program does with the tokens that follow its name.
///
/// Where no token is a dash followed by more, the plan is the one for the
/// tokens as positional ones.
pub fn plan(tokens: &Vec<String>, build: &BuildInfo) -> (plan: Plan)
    ensures
        plan@ == plan_spec(normalize_spec(tokens.deep_view()), build@),
        all_positional(tokens.deep_view()) ==> plan@ == plan_spec(
            Ok(resolve_spec(only_positional(tokens.deep_view()), tokens.len() > 0)),
            build@,
        ),
        plan matches Plan::Run(options) ==> well_formed(options@),
{
    plan_for(normalize(tokens), build)
}

} // verus!
