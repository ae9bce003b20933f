use aderyn_gemini::pipeline::{
    route_after, start, step, Action, Channel, ConsoleLine, Event, PipelineError, PipelineState,
    Route, Stage, Transition, EXIT_COMPLETED, EXIT_FAILED,
};

fn out(text: &str) -> ConsoleLine {
    ConsoleLine { channel: Channel::Stdout, text: text.to_string() }
}

fn err(text: &str) -> ConsoleLine {
    ConsoleLine { channel: Channel::Stderr, text: text.to_string() }
}

fn s(text: &str) -> String {
    text.to_string()
}

fn flattening() -> PipelineState {
    PipelineState::Flattening { output_file: s("gemini_analysis.md") }
}

fn resolving() -> PipelineState {
    PipelineState::ResolvingCredentials {
        output_file: s("gemini_analysis.md"),
        content: s("contract A {}"),
        project_name: s("vault"),
    }
}

fn analyzing() -> PipelineState {
    PipelineState::Analyzing { output_file: s("gemini_analysis.md") }
}

fn persisting() -> PipelineState {
    PipelineState::Persisting { output_file: s("gemini_analysis.md"), report: s("# Findings\nnone") }
}

fn every_event() -> Vec<Event> {
    vec![
        Event::Flattened { content: s("c"), project_name: s("p") },
        Event::FlattenFailed(s("e")),
        Event::CredentialsResolved { api_key: s("k"), model: s("m") },
        Event::CredentialsFailed(s("e")),
        Event::Analyzed { report: s("r") },
        Event::AnalysisFailed(s("e")),
        Event::Persisted,
        Event::PersistFailed(s("e")),
    ]
}

#[test]
fn routing_rule_in_full() {
    assert_eq!(route_after(Stage::Flatten, false), Route::Advance(Stage::ResolveCredentials));
    assert_eq!(route_after(Stage::Flatten, true), Route::Halt);
    assert_eq!(route_after(Stage::ResolveCredentials, false), Route::Advance(Stage::Estimate));
    assert_eq!(route_after(Stage::ResolveCredentials, true), Route::Halt);
    assert_eq!(route_after(Stage::Estimate, false), Route::Advance(Stage::Analyze));
    assert_eq!(route_after(Stage::Estimate, true), Route::Advance(Stage::Analyze));
    assert_eq!(route_after(Stage::Analyze, false), Route::Advance(Stage::Persist));
    assert_eq!(route_after(Stage::Analyze, true), Route::Halt);
    assert_eq!(route_after(Stage::Persist, false), Route::Finish);
    assert_eq!(route_after(Stage::Persist, true), Route::Fallback);
}

#[test]
fn exit_statuses() {
    assert_eq!(EXIT_COMPLETED, 0);
    assert_eq!(EXIT_FAILED, 1);
}

#[test]
fn errors_name_their_stage() {
    assert_eq!(PipelineError::Flatten(s("x")).stage(), Stage::Flatten);
    assert_eq!(PipelineError::Credentials(s("x")).stage(), Stage::ResolveCredentials);
    assert_eq!(PipelineError::Analysis(s("x")).stage(), Stage::Analyze);
    assert_eq!(PipelineError::Persist(s("x")).stage(), Stage::Persist);
}

#[test]
fn errors_are_reported_with_stage_and_message() {
    assert_eq!(
        PipelineError::Flatten(s("no contracts")).report(),
        "Error flattening contracts: no contracts"
    );
    assert_eq!(
        PipelineError::Credentials(s("empty key")).report(),
        "Error getting API credentials: empty key"
    );
    assert_eq!(
        PipelineError::Analysis(s("quota exceeded")).report(),
        "Error during Gemini analysis: quota exceeded"
    );
    assert_eq!(PipelineError::Persist(s("disk full")).report(), "Error saving report: disk full");
}

#[test]
fn start_shows_the_banner_and_orders_flattening() {
    let first = start(s("./contracts"), s("gemini_analysis.md"));
    assert_eq!(
        first,
        Transition {
            state: PipelineState::Flattening { output_file: s("gemini_analysis.md") },
            lines: vec![
                out("Starting Gemini AI Analysis..."),
                out("==============================="),
                out("Flattening contracts from: ./contracts"),
            ],
            action: Action::Flatten { root_path: s("./contracts") },
        }
    );
}

#[test]
fn flattened_project_leads_to_the_credentials() {
    let moved = step(
        flattening(),
        Event::Flattened { content: s("contract A {}"), project_name: s("vault") },
    );
    assert_eq!(
        moved,
        Some(Transition {
            state: resolving(),
            lines: vec![
                out("Found and flattened contracts for project: vault"),
                out("Total code size: 13 characters"),
            ],
            action: Action::PromptCredentials,
        })
    );
}

#[test]
fn code_size_counts_characters() {
    let moved = step(flattening(), Event::Flattened { content: s("größe"), project_name: s("p") })
        .unwrap();
    assert_eq!(moved.lines[1], out("Total code size: 5 characters"));
    let moved = step(flattening(), Event::Flattened { content: s(""), project_name: s("p") })
        .unwrap();
    assert_eq!(moved.lines[1], out("Total code size: 0 characters"));
}

#[test]
fn simulated_flatten_failure_halts_before_credentials() {
    let mut asked_for_credentials = false;
    let mut shown: Vec<ConsoleLine> = Vec::new();
    let mut exit_status: Option<u8> = None;
    let mut turn = start(s("."), s("gemini_analysis.md"));
    loop {
        shown.append(&mut turn.lines);
        let event = match turn.action {
            Action::Flatten { .. } => Event::FlattenFailed(s("no Solidity files found")),
            Action::PromptCredentials => {
                asked_for_credentials = true;
                Event::CredentialsResolved { api_key: s("k"), model: s("m") }
            }
            Action::Analyze { .. } => Event::Analyzed { report: s("r") },
            Action::Persist { .. } => Event::Persisted,
            Action::Stop { exit_status: status } => {
                exit_status = Some(status);
                break;
            }
        };
        turn = step(turn.state, event).unwrap();
    }
    assert!(!asked_for_credentials);
    assert_eq!(exit_status, Some(1));
    assert_eq!(
        shown.last(),
        Some(&err("Error flattening contracts: no Solidity files found"))
    );
    assert_eq!(shown.len(), 4);
}

#[test]
fn flatten_failure_is_kept_in_the_final_state() {
    let moved = step(flattening(), Event::FlattenFailed(s("boom")));
    assert_eq!(
        moved,
        Some(Transition {
            state: PipelineState::Finished { failure: Some(PipelineError::Flatten(s("boom"))) },
            lines: vec![err("Error flattening contracts: boom")],
            action: Action::Stop { exit_status: 1 },
        })
    );
}

#[test]
fn resolved_credentials_lead_to_the_analysis() {
    let moved = step(
        resolving(),
        Event::CredentialsResolved { api_key: s("key"), model: s("gemini-1.5-pro") },
    );
    assert_eq!(
        moved,
        Some(Transition {
            state: analyzing(),
            lines: vec![
                out("Estimated cost: < $0.01"),
                out("\nSending code to Gemini AI for analysis..."),
                out("This may take a few moments..."),
            ],
            action: Action::Analyze {
                content: s("contract A {}"),
                project_name: s("vault"),
                api_key: s("key"),
                model: s("gemini-1.5-pro"),
            },
        })
    );
}

#[test]
fn estimate_follows_content_and_model() {
    let state = PipelineState::ResolvingCredentials {
        output_file: s("o"),
        content: "x".repeat(400_000),
        project_name: s("p"),
    };
    let moved =
        step(state, Event::CredentialsResolved { api_key: s("k"), model: s("gemini-1.5-pro") })
            .unwrap();
    assert_eq!(moved.lines[0], out("Estimated cost: ~$0.35"));
    let state = PipelineState::ResolvingCredentials {
        output_file: s("o"),
        content: "x".repeat(400_000),
        project_name: s("p"),
    };
    let moved =
        step(state, Event::CredentialsResolved { api_key: s("k"), model: s("some-model") })
            .unwrap();
    assert_eq!(moved.lines[0], out("Estimated cost: ~$0.10"));
}

#[test]
fn estimate_never_blocks_the_analysis() {
    let state = PipelineState::ResolvingCredentials {
        output_file: s("o"),
        content: "x".repeat(8_000_000),
        project_name: s("p"),
    };
    let moved =
        step(state, Event::CredentialsResolved { api_key: s("k"), model: s("gemini-1.5-pro") })
            .unwrap();
    assert_eq!(moved.lines[0], out("Estimated cost: ~$7.00"));
    assert!(matches!(moved.action, Action::Analyze { .. }));
}

#[test]
fn credential_failure_halts() {
    let moved = step(resolving(), Event::CredentialsFailed(s("no key given")));
    assert_eq!(
        moved,
        Some(Transition {
            state: PipelineState::Finished {
                failure: Some(PipelineError::Credentials(s("no key given"))),
            },
            lines: vec![err("Error getting API credentials: no key given")],
            action: Action::Stop { exit_status: 1 },
        })
    );
}

#[test]
fn finished_analysis_leads_to_persisting() {
    let moved = step(analyzing(), Event::Analyzed { report: s("# Findings\nnone") });
    assert_eq!(
        moved,
        Some(Transition {
            state: persisting(),
            lines: vec![],
            action: Action::Persist {
                output_file: s("gemini_analysis.md"),
                report: s("# Findings\nnone"),
            },
        })
    );
}

#[test]
fn analysis_failure_halts() {
    let moved = step(analyzing(), Event::AnalysisFailed(s("quota exceeded")));
    assert_eq!(
        moved,
        Some(Transition {
            state: PipelineState::Finished {
                failure: Some(PipelineError::Analysis(s("quota exceeded"))),
            },
            lines: vec![err("Error during Gemini analysis: quota exceeded")],
            action: Action::Stop { exit_status: 1 },
        })
    );
}

#[test]
fn written_report_completes_the_run() {
    let moved = step(persisting(), Event::Persisted);
    assert_eq!(
        moved,
        Some(Transition {
            state: PipelineState::Finished { failure: None },
            lines: vec![
                out("Analysis complete!"),
                out("Report saved to: gemini_analysis.md"),
                out("Open the file to view detailed AI analysis results"),
            ],
            action: Action::Stop { exit_status: 0 },
        })
    );
}

#[test]
fn simulated_persist_failure_prints_the_report() {
    let mut on_stdout: Vec<String> = Vec::new();
    let mut on_stderr: Vec<String> = Vec::new();
    let mut exit_status: Option<u8> = None;
    let mut turn = start(s("."), s("/read-only/gemini_analysis.md"));
    loop {
        for line in turn.lines {
            match line.channel {
                Channel::Stdout => on_stdout.push(line.text),
                Channel::Stderr => on_stderr.push(line.text),
            }
        }
        let event = match turn.action {
            Action::Flatten { .. } => {
                Event::Flattened { content: s("contract A {}"), project_name: s("vault") }
            }
            Action::PromptCredentials => {
                Event::CredentialsResolved { api_key: s("k"), model: s("gemini-1.5-flash") }
            }
            Action::Analyze { .. } => Event::Analyzed { report: s("# Findings\n1. reentrancy") },
            Action::Persist { .. } => Event::PersistFailed(s("Read-only file system")),
            Action::Stop { exit_status: status } => {
                exit_status = Some(status);
                break;
            }
        };
        turn = step(turn.state, event).unwrap();
    }
    assert_eq!(exit_status, Some(0));
    assert_eq!(on_stdout.last(), Some(&s("# Findings\n1. reentrancy")));
    assert_eq!(
        on_stderr,
        vec![s("Error saving report: Read-only file system"), s("Analysis content:")]
    );
    assert!(!on_stdout.contains(&s("Analysis complete!")));
}

#[test]
fn persist_failure_is_kept_in_the_final_state() {
    let moved = step(persisting(), Event::PersistFailed(s("disk full")));
    assert_eq!(
        moved,
        Some(Transition {
            state: PipelineState::Finished { failure: Some(PipelineError::Persist(s("disk full"))) },
            lines: vec![
                err("Error saving report: disk full"),
                err("Analysis content:"),
                out("# Findings\nnone"),
            ],
            action: Action::Stop { exit_status: 0 },
        })
    );
}

#[test]
fn whole_run_orders_the_stages_once_and_in_order() {
    let mut ordered: Vec<&str> = Vec::new();
    let mut turn = start(s("proj"), s("out.md"));
    loop {
        let event = match &turn.action {
            Action::Flatten { root_path } => {
                assert_eq!(root_path, "proj");
                ordered.push("flatten");
                Event::Flattened { content: s("code"), project_name: s("proj") }
            }
            Action::PromptCredentials => {
                ordered.push("credentials");
                Event::CredentialsResolved { api_key: s("k"), model: s("gemini-1.5-flash") }
            }
            Action::Analyze { content, project_name, api_key, model } => {
                assert_eq!(content, "code");
                assert_eq!(project_name, "proj");
                assert_eq!(api_key, "k");
                assert_eq!(model, "gemini-1.5-flash");
                ordered.push("analyze");
                Event::Analyzed { report: s("report") }
            }
            Action::Persist { output_file, report } => {
                assert_eq!(output_file, "out.md");
                assert_eq!(report, "report");
                ordered.push("persist");
                Event::Persisted
            }
            Action::Stop { exit_status } => {
                assert_eq!(*exit_status, 0);
                break;
            }
        };
        turn = step(turn.state, event).unwrap();
    }
    assert_eq!(ordered, vec!["flatten", "credentials", "analyze", "persist"]);
    assert_eq!(turn.state, PipelineState::Finished { failure: None });
}

#[test]
fn events_out_of_order_move_nothing() {
    for (index, event) in every_event().into_iter().enumerate() {
        assert_eq!(step(flattening(), event).is_some(), index == 0 || index == 1);
    }
    for (index, event) in every_event().into_iter().enumerate() {
        assert_eq!(step(resolving(), event).is_some(), index == 2 || index == 3);
    }
    for (index, event) in every_event().into_iter().enumerate() {
        assert_eq!(step(analyzing(), event).is_some(), index == 4 || index == 5);
    }
    for (index, event) in every_event().into_iter().enumerate() {
        assert_eq!(step(persisting(), event).is_some(), index == 6 || index == 7);
    }
}

#[test]
fn nothing_moves_a_finished_run() {
    for event in every_event() {
        assert_eq!(step(PipelineState::Finished { failure: None }, event), None);
    }
    for event in every_event() {
        let state = PipelineState::Finished { failure: Some(PipelineError::Flatten(s("e"))) };
        assert_eq!(step(state, event), None);
    }
    for event in every_event() {
        let state = PipelineState::Finished { failure: Some(PipelineError::Persist(s("e"))) };
        assert_eq!(step(state, event), None);
    }
}
