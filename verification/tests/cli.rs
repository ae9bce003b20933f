use aderyn_gemini::cli::{Command, CommandLineArgs, MainSubcommand, ReportArgs};

fn s(text: &str) -> String {
    text.to_string()
}

fn plain(subcommand: Option<MainSubcommand>) -> CommandLineArgs {
    CommandLineArgs {
        subcommand,
        root: s("."),
        src: None,
        path_includes: None,
        path_excludes: None,
        output: s("report.md"),
        lsp: false,
        highs_only: false,
        stdout: false,
        skip_cloc: false,
        skip_update_check: false,
        auditor_mode: false,
        no_snippets: false,
    }
}

#[test]
fn registry_of_all_lists_the_detectors() {
    let args = plain(Some(MainSubcommand::Registry { detector: s("all") }));
    assert_eq!(args.into_command(), Command::ListDetectors);
}

#[test]
fn registry_of_a_name_describes_that_detector() {
    let args = plain(Some(MainSubcommand::Registry { detector: s("reentrancy") }));
    assert_eq!(args.into_command(), Command::DescribeDetector { detector: s("reentrancy") });
    let args = plain(Some(MainSubcommand::Registry { detector: s("All") }));
    assert_eq!(args.into_command(), Command::DescribeDetector { detector: s("All") });
    let args = plain(Some(MainSubcommand::Registry { detector: s("") }));
    assert_eq!(args.into_command(), Command::DescribeDetector { detector: s("") });
}

#[test]
fn init_carries_root_and_path() {
    let mut args = plain(Some(MainSubcommand::Init { path: Some(s("packages/core")) }));
    args.root = s("/work/project");
    assert_eq!(
        args.into_command(),
        Command::InitConfig { root: s("/work/project"), path: Some(s("packages/core")) }
    );
    let args = plain(Some(MainSubcommand::Init { path: None }));
    assert_eq!(args.into_command(), Command::InitConfig { root: s("."), path: None });
}

#[test]
fn docs_carries_the_question() {
    let args = plain(Some(MainSubcommand::Docs { question: Some(s("how to exclude files?")) }));
    assert_eq!(args.into_command(), Command::Docs { question: Some(s("how to exclude files?")) });
    let args = plain(Some(MainSubcommand::Docs { question: None }));
    assert_eq!(args.into_command(), Command::Docs { question: None });
}

#[test]
fn gemini_carries_root_and_output() {
    let mut args = plain(Some(MainSubcommand::Gemini { output: s("gemini_analysis.md") }));
    args.root = s("contracts");
    args.output = s("report.md");
    assert_eq!(
        args.into_command(),
        Command::GeminiAnalysis { root_path: s("contracts"), output_file: s("gemini_analysis.md") }
    );
}

#[test]
fn subcommand_goes_before_the_language_server() {
    let mut args = plain(Some(MainSubcommand::Gemini { output: s("o.md") }));
    args.lsp = true;
    args.auditor_mode = true;
    assert_eq!(
        args.into_command(),
        Command::GeminiAnalysis { root_path: s("."), output_file: s("o.md") }
    );
}

#[test]
fn language_server_goes_before_the_report() {
    let mut args = plain(None);
    args.lsp = true;
    args.auditor_mode = true;
    assert_eq!(args.into_command(), Command::LanguageServer);
}

#[test]
fn no_subcommand_generates_the_report() {
    let args = plain(None);
    assert_eq!(
        args.into_command(),
        Command::Report {
            args: ReportArgs {
                root: s("."),
                src: None,
                path_excludes: None,
                path_includes: None,
                output: s("report.md"),
                stdout: false,
                no_snippets: false,
                lsp: false,
                skip_cloc: false,
                highs_only: false,
            },
            auditor_mode: false,
            check_for_update: true,
        }
    );
}

#[test]
fn report_carries_every_option() {
    let args = CommandLineArgs {
        subcommand: None,
        root: s("/p"),
        src: Some(s("src")),
        path_includes: Some(vec![s("src/A.sol"), s("src/B.sol")]),
        path_excludes: Some(vec![s("src/test")]),
        output: s("report.json"),
        lsp: false,
        highs_only: true,
        stdout: true,
        skip_cloc: true,
        skip_update_check: true,
        auditor_mode: true,
        no_snippets: true,
    };
    assert_eq!(
        args.into_command(),
        Command::Report {
            args: ReportArgs {
                root: s("/p"),
                src: Some(s("src")),
                path_excludes: Some(vec![s("src/test")]),
                path_includes: Some(vec![s("src/A.sol"), s("src/B.sol")]),
                output: s("report.json"),
                stdout: true,
                no_snippets: true,
                lsp: false,
                skip_cloc: true,
                highs_only: true,
            },
            auditor_mode: true,
            check_for_update: false,
        }
    );
}
