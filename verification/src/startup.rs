//! What the process does with its arguments, and what it prints when it does
//! not go on to serve.

use crate::argparser::{
    get_parameter_switch_from_args, get_parameter_value_from_args, is_present, parameter_value,
};
use crate::error::{ArgError, ArgErrorView};
use crate::loglevel::LogLevel;
use vstd::prelude::*;

verus! {

/// The switch that asks for the help text.
pub const HELPPARAMETER: &'static str = "--help";

/// The flag whose value is the log level.
pub const LOGLEVELPARAMETER: &'static str = "--loglevel";

/// What is reported when the log level's token is no level.
pub const INVALIDLOGLEVEL: &'static str = "Invalid log level";

/// The text shown on `--help`, and after every fatal error.
pub const HELP: &'static str = "\
Simple web server.\n\
--loglevel        Log level to use. Defaults to Info.\n\
--help        Display this help and exit.";

/// The exit code after the help text was asked for.
pub const EXIT_HELP: i32 = 0;

/// The exit code after a fatal error at start-up.
pub const EXIT_FATAL: i32 = -1;

/// What an argument vector asks of the process.
#[derive(Debug, Clone, Copy, PartialEq, Eq, Structural)]
pub enum Invocation {
    /// Show the help text and stop.
    Help,
    /// Serve, logging at the given level.
    Run(LogLevel),
}

/// What `args` ask for: help wherever `--help` occurs, whatever else is given;
/// otherwise a run at the level that follows the first `--loglevel`, which must
/// be there and must be a level.
pub open spec fn invocation(args: Seq<Seq<char>>) -> Result<Invocation, ArgErrorView> {
    if is_present(args, HELPPARAMETER@) {
        Ok(Invocation::Help)
    } else {
        match parameter_value::<LogLevel>(args, LOGLEVELPARAMETER@, INVALIDLOGLEVEL@) {
            Ok(level) => Ok(Invocation::Run(level)),
            Err(failure) => Err(failure),
        }
    }
}

/// Reads the invocation out of `args`.
pub fn parse_arguments(args: &[String]) -> (parsed: Result<Invocation, ArgError>)
    ensures
        match parsed {
            Ok(asked) => invocation(args.deep_view()) == Ok::<Invocation, ArgErrorView>(asked),
            Err(error) => invocation(args.deep_view()) == Err::<Invocation, ArgErrorView>(error@),
        },
{
    if get_parameter_switch_from_args(args, HELPPARAMETER) {
        return Ok(Invocation::Help);
    }
    match get_parameter_value_from_args::<LogLevel>(args, LOGLEVELPARAMETER, INVALIDLOGLEVEL) {
        Ok(level) => Ok(Invocation::Run(level)),
        Err(error) => Err(error),
    }
}

/// The report of a fatal error at start-up: the error after `Error: `, a line
/// break, then the help text.
pub open spec fn fatal_error_report(error: Seq<char>) -> Seq<char> {
    "Error: "@ + error + "\r\n"@ + HELP@
}

/// Words the report of the fatal error `error`.
pub fn fatal_error_text(error: &str) -> (text: String)
    ensures
        text@ == fatal_error_report(error@),
{
    let mut text = "Error: ".to_owned();
    text.append(error);
    text.append("\r\n");
    text.append(HELP);
    text
}

/// How a failure to read the arguments is named in a fatal error.
pub open spec fn argument_error_report(failure: ArgErrorView) -> Seq<char> {
    "Error parsing arguments: "@ + failure.message()
}

/// Words the failure `error` to read the arguments.
pub fn argument_error_text(error: &ArgError) -> (text: String)
    ensures
        text@ == argument_error_report(error@),
{
    let mut text = "Error parsing arguments: ".to_owned();
    let message = error.message();
    text.append(message.as_str());
    text
}

/// What the process does once its arguments are read.
#[derive(Debug, PartialEq, Eq)]
pub enum StartupAction {
    /// Print `text`, then exit with `code`.
    Exit { text: String, code: i32 },
    /// Set the log level and serve.
    Serve(LogLevel),
}

/// A `StartupAction` with its text as a sequence of characters.
pub ghost enum StartupActionView {
    Exit { text: Seq<char>, code: int },
    Serve(LogLevel),
}

impl View for StartupAction {
    type V = StartupActionView;

    open spec fn view(&self) -> StartupActionView {
        match *self {
            StartupAction::Exit { text, code } => StartupActionView::Exit {
                text: text@,
                code: code as int,
            },
            StartupAction::Serve(level) => StartupActionView::Serve(level),
        }
    }
}

/// The action that `args` lead to: the help text with the exit code of a
/// success where help is asked for; the report of the failure with the exit
/// code of a fatal error where the log level cannot be read; serving otherwise.
pub open spec fn planned_action(args: Seq<Seq<char>>) -> StartupActionView {
    match invocation(args) {
        Ok(Invocation::Help) => StartupActionView::Exit { text: HELP@, code: EXIT_HELP as int },
        Ok(Invocation::Run(level)) => StartupActionView::Serve(level),
        Err(failure) => StartupActionView::Exit {
            text: fatal_error_report(argument_error_report(failure)),
            code: EXIT_FATAL as int,
        },
    }
}

/// Decides what the process does with `args`. Nothing is printed here and
/// nothing exits: the caller carries the action out.
pub fn startup_action(args: &[String]) -> (action: StartupAction)
    ensures
        action@ == planned_action(args.deep_view()),
{
    match parse_arguments(args) {
        Ok(Invocation::Help) => StartupAction::Exit { text: HELP.to_owned(), code: EXIT_HELP },
        Ok(Invocation::Run(level)) => StartupAction::Serve(level),
        Err(error) => {
            let reason = argument_error_text(&error);
            StartupAction::Exit { text: fatal_error_text(reason.as_str()), code: EXIT_FATAL }
        },
    }
}

/// When each action comes. The process exits with the code of a success
/// exactly when help is asked for, and then prints the help text alone; it
/// exits with the code of a fatal error exactly when help is not asked for and
/// the log level cannot be read; it serves at a level exactly when help is not
/// asked for and that level is read.
pub proof fn lemma_startup_cases(args: Seq<Seq<char>>)
    ensures
        is_present(args, HELPPARAMETER@) <==> planned_action(args) == (StartupActionView::Exit {
            text: HELP@,
            code: EXIT_HELP as int,
        }),
        planned_action(args) matches StartupActionView::Exit { code, .. } ==> (code
            == EXIT_HELP <==> is_present(args, HELPPARAMETER@)) && (code == EXIT_FATAL
            <==> !is_present(args, HELPPARAMETER@)),
        planned_action(args) is Exit <==> is_present(args, HELPPARAMETER@) || parameter_value::<
            LogLevel,
        >(args, LOGLEVELPARAMETER@, INVALIDLOGLEVEL@) is Err,
        forall|level: LogLevel|
            planned_action(args) == StartupActionView::Serve(level) <==> !is_present(
                args,
                HELPPARAMETER@,
            ) && parameter_value::<LogLevel>(args, LOGLEVELPARAMETER@, INVALIDLOGLEVEL@) == Ok::<
                LogLevel,
                ArgErrorView,
            >(level),
{
}

} // verus!
