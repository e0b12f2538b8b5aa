//! What the `validate` and `render` commands report, and how a report is
//! printed.

use vstd::prelude::*;

verus! {

/// How a command prints its report.
#[derive(Clone, Copy, Debug, PartialEq, Eq, Structural)]
pub enum OutputFormat {
    /// The two streams as they are.
    Text,
    /// The whole report as one JSON document.
    Json,
}

/// What a command has to say, and the exit code of the process.
#[derive(Clone, Debug)]
pub struct CommandReport {
    /// Text for standard output.
    pub stdout: String,
    /// Text for standard error.
    pub stderr: String,
    /// 0 on success, 1 on failure.
    pub return_code: i32,
}

/// A report as sequences of characters.
pub struct CommandReportView {
    pub stdout: Seq<char>,
    pub stderr: Seq<char>,
    pub return_code: i32,
}

impl View for CommandReport {
    type V = CommandReportView;

    open spec fn view(&self) -> CommandReportView {
        CommandReportView {
            stdout: self.stdout@,
            stderr: self.stderr@,
            return_code: self.return_code,
        }
    }
}

/// The view of a validation or rendering failure: the message alone.
pub open spec fn failure_view<T>(outcome: Result<T, String>) -> Option<Seq<char>> {
    match outcome {
        Ok(_) => None,
        Err(message) => Some(message@),
    }
}

/// The report on the validation of the file at `filepath`, which failed
/// with the given message or did not fail.
pub open spec fn validation_report_spec(
    filepath: Seq<char>,
    failure: Option<Seq<char>>,
) -> CommandReportView {
    match failure {
        None => CommandReportView {
            stdout: filepath + " is a valid EDF file"@,
            stderr: Seq::empty(),
            return_code: 0,
        },
        Some(message) => CommandReportView {
            stdout: filepath + " is an INVALID EDF file"@,
            stderr: message,
            return_code: 1,
        },
    }
}

/// Reports on the validation of the file at `filepath`. `outcome` is what
/// the validation gave: nothing, or the message of its error.
pub fn validation_report(filepath: &str, outcome: Result<(), String>) -> (report: CommandReport)
    ensures
        report@ == validation_report_spec(filepath@, failure_view(outcome)),
{
    match outcome {
        Ok(_) => CommandReport {
            stdout: filepath.to_owned().concat(" is a valid EDF file"),
            stderr: String::new(),
            return_code: 0,
        },
        Err(message) => CommandReport {
            stdout: filepath.to_owned().concat(" is an INVALID EDF file"),
            stderr: message,
            return_code: 1,
        },
    }
}

/// The view of a rendering outcome.
pub open spec fn rendering_view(outcome: Result<Option<String>, String>) -> Result<
    Option<Seq<char>>,
    Seq<char>,
> {
    match outcome {
        Ok(Some(json)) => Ok(Some(json@)),
        Ok(None) => Ok(None),
        Err(message) => Err(message@),
    }
}

/// The report on a rendering. A rendered definition is printed as the JSON
/// it was serialised to, or as `ERROR` where it could not be serialised; a
/// rendering that failed prints its message on standard error.
pub open spec fn render_report_spec(
    outcome: Result<Option<Seq<char>>, Seq<char>>,
) -> CommandReportView {
    match outcome {
        Ok(Some(json)) => CommandReportView { stdout: json, stderr: Seq::empty(), return_code: 0 },
        Ok(None) => CommandReportView { stdout: "ERROR"@, stderr: Seq::empty(), return_code: 0 },
        Err(message) => CommandReportView {
            stdout: Seq::empty(),
            stderr: message,
            return_code: 1,
        },
    }
}

/// Reports on the rendering of an environment definition. `outcome` holds
/// the rendered definition as JSON (`None` where it could not be
/// serialised), or the message of the rendering error.
pub fn render_report(outcome: Result<Option<String>, String>) -> (report: CommandReport)
    ensures
        report@ == render_report_spec(rendering_view(outcome)),
{
    match outcome {
        Ok(Some(json)) => CommandReport { stdout: json, stderr: String::new(), return_code: 0 },
        Ok(None) => CommandReport {
            stdout: "ERROR".to_owned(),
            stderr: String::new(),
            return_code: 0,
        },
        Err(message) => CommandReport { stdout: String::new(), stderr: message, return_code: 1 },
    }
}

/// What is written to the two standard streams, one line each at most.
#[derive(Clone, Debug)]
pub struct Printed {
    /// The line for standard output, if there is one.
    pub stdout: Option<String>,
    /// The line for standard error, if there is one.
    pub stderr: Option<String>,
}

/// What is written, as sequences of characters.
pub struct PrintedView {
    pub stdout: Option<Seq<char>>,
    pub stderr: Option<Seq<char>>,
}

impl View for Printed {
    type V = PrintedView;

    open spec fn view(&self) -> PrintedView {
        PrintedView { stdout: self.stdout.deep_view(), stderr: self.stderr.deep_view() }
    }
}

/// A text, unless it is empty.
pub open spec fn unless_empty(text: Seq<char>) -> Option<Seq<char>> {
    if text.len() == 0 {
        None
    } else {
        Some(text)
    }
}

/// What printing `report` in `format` writes. As text, each stream gets
/// its part of the report unless that part is empty. As JSON, standard
/// output gets the serialised report, or `{}` where there is none, and
/// standard error gets nothing.
pub open spec fn printout_spec(
    format: OutputFormat,
    report: CommandReportView,
    json: Option<Seq<char>>,
) -> PrintedView {
    match format {
        OutputFormat::Text => PrintedView {
            stdout: unless_empty(report.stdout),
            stderr: unless_empty(report.stderr),
        },
        OutputFormat::Json => PrintedView {
            stdout: Some(
                match json {
                    Some(text) => text,
                    None => "{}"@,
                },
            ),
            stderr: None,
        },
    }
}

/// A copy of `text`, unless it is empty.
fn line_of(text: &String) -> (line: Option<String>)
    ensures
        line.deep_view() == unless_empty(text@),
{
    if text.as_str().is_empty() {
        None
    } else {
        Some(text.clone())
    }
}

/// Decides what printing `report` in `format` writes to the two standard
/// streams. `json` is the report serialised as JSON, `None` where it could
/// not be serialised.
pub fn printout(format: OutputFormat, report: &CommandReport, json: Option<String>) -> (printed:
    Printed)
    ensures
        printed@ == printout_spec(format, report@, json.deep_view()),
{
    match format {
        OutputFormat::Text => Printed {
            stdout: line_of(&report.stdout),
            stderr: line_of(&report.stderr),
        },
        OutputFormat::Json => Printed {
            stdout: Some(
                match json {
                    Some(text) => text,
                    None => "{}".to_owned(),
                },
            ),
            stderr: None,
        },
    }
}

} // verus!
