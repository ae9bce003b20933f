//! The command line, once parsed: its options, and the one command that
//! they select.
//!
//! Every text is handed on as it came, so the contracts here speak of the
//! values themselves and not of their views.

use vstd::prelude::*;
use crate::text::same_text;

verus! {

/// The subcommands.
#[derive(Debug, PartialEq, Eq)]
pub enum MainSubcommand {
    /// Browse the detector registry: `all`, or the name of one detector.
    Registry { detector: String },
    /// Create the analyzer's configuration file, under the root or under a
    /// path inside it.
    Init { path: Option<String> },
    /// Browse the documentation, or ask it a question.
    Docs { question: Option<String> },
    /// Flatten the contracts and have them analyzed by the AI service.
    Gemini { output: String },
}

/// The options of the command line.
#[derive(Debug, PartialEq, Eq)]
pub struct CommandLineArgs {
    pub subcommand: Option<MainSubcommand>,
    /// Root directory of the project.
    pub root: String,
    /// Directory of the contract sources, relative to the root.
    pub src: Option<String>,
    /// Path fragments to include.
    pub path_includes: Option<Vec<String>>,
    /// Path fragments to exclude.
    pub path_excludes: Option<Vec<String>>,
    /// File path of the final report.
    pub output: String,
    /// Start the language server.
    pub lsp: bool,
    /// Run the high detectors only.
    pub highs_only: bool,
    /// Write the report to standard output.
    pub stdout: bool,
    /// Do not count lines of code.
    pub skip_cloc: bool,
    /// Do not look for a newer version after the report.
    pub skip_update_check: bool,
    /// Produce the helpers for a manual audit only.
    pub auditor_mode: bool,
    /// Leave code snippets out of the report.
    pub no_snippets: bool,
}

/// What the report generator is asked for.
#[derive(Debug, PartialEq, Eq)]
pub struct ReportArgs {
    pub root: String,
    pub src: Option<String>,
    pub path_excludes: Option<Vec<String>>,
    pub path_includes: Option<Vec<String>>,
    pub output: String,
    pub stdout: bool,
    pub no_snippets: bool,
    pub lsp: bool,
    pub skip_cloc: bool,
    pub highs_only: bool,
}

/// The one thing that an invocation does.
#[derive(Debug, PartialEq, Eq)]
pub enum Command {
    /// Show all detectors.
    ListDetectors,
    /// Show one detector in detail.
    DescribeDetector { detector: String },
    /// Create the analyzer's configuration file under `root`, or under
    /// `path` inside it.
    InitConfig { root: String, path: Option<String> },
    /// Open the documentation, with a question or without.
    Docs { question: Option<String> },
    /// Run the AI analysis on the project under `root_path`.
    GeminiAnalysis { root_path: String, output_file: String },
    /// Serve the language server protocol.
    LanguageServer,
    /// Generate the report, in auditor mode or not, and look for a newer
    /// version afterwards or not.
    Report { args: ReportArgs, auditor_mode: bool, check_for_update: bool },
}

/// The command that the options select. A subcommand goes before
/// everything else; without one, the language server goes before the
/// report.
pub open spec fn selected(args: CommandLineArgs) -> Command {
    match args.subcommand {
        Some(MainSubcommand::Registry { detector }) => if detector@ == "all"@ {
            Command::ListDetectors
        } else {
            Command::DescribeDetector { detector }
        },
        Some(MainSubcommand::Init { path }) => Command::InitConfig { root: args.root, path },
        Some(MainSubcommand::Docs { question }) => Command::Docs { question },
        Some(MainSubcommand::Gemini { output }) => Command::GeminiAnalysis {
            root_path: args.root,
            output_file: output,
        },
        None => if args.lsp {
            Command::LanguageServer
        } else {
            Command::Report {
                args: ReportArgs {
                    root: args.root,
                    src: args.src,
                    path_excludes: args.path_excludes,
                    path_includes: args.path_includes,
                    output: args.output,
                    stdout: args.stdout,
                    no_snippets: args.no_snippets,
                    lsp: args.lsp,
                    skip_cloc: args.skip_cloc,
                    highs_only: args.highs_only,
                },
                auditor_mode: args.auditor_mode,
                check_for_update: !args.skip_update_check,
            }
        },
    }
}

impl CommandLineArgs {
    /// Selects the command to run.
    pub fn into_command(self) -> (command: Command)
        ensures
            command == selected(self),
    {
        match self.subcommand {
            Some(MainSubcommand::Registry { detector }) => {
                if same_text(detector.as_str(), "all") {
                    Command::ListDetectors
                } else {
                    Command::DescribeDetector { detector }
                }
            },
            Some(MainSubcommand::Init { path }) => Command::InitConfig { root: self.root, path },
            Some(MainSubcommand::Docs { question }) => Command::Docs { question },
            Some(MainSubcommand::Gemini { output }) => Command::GeminiAnalysis {
                root_path: self.root,
                output_file: output,
            },
            None => {
                if self.lsp {
                    Command::LanguageServer
                } else {
                    Command::Report {
                        args: ReportArgs {
                            root: self.root,
                            src: self.src,
                            path_excludes: self.path_excludes,
                            path_includes: self.path_includes,
                            output: self.output,
                            stdout: self.stdout,
                            no_snippets: self.no_snippets,
                            lsp: self.lsp,
                            skip_cloc: self.skip_cloc,
                            highs_only: self.highs_only,
                        },
                        auditor_mode: self.auditor_mode,
                        check_for_update: !self.skip_update_check,
                    }
                }
            },
        }
    }
}

} // verus!
