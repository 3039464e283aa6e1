use rust_adb::automation::all_tasks_succeeded;
use rust_adb::automation::app_installation_message;
use rust_adb::automation::batch_command_line;
use rust_adb::automation::batch_step_output;
use rust_adb::automation::command_of_step;
use rust_adb::automation::conditional_choice;
use rust_adb::automation::data_collection_message;
use rust_adb::automation::device_setup_message;
use rust_adb::automation::failed_commands_message;
use rust_adb::automation::get_param;
use rust_adb::automation::lookup_step_result;
use rust_adb::automation::parallel_step_output;
use rust_adb::automation::parse_batch_commands;
use rust_adb::automation::split_batch_commands;
use rust_adb::automation::summarize_batch;
use rust_adb::automation::workflow_should_continue;
use rust_adb::automation::AutomationTaskResult;
use rust_adb::automation::CommandResult;
use rust_adb::automation::StepResult;
use rust_adb::automation::StepType;
use rust_adb::automation::WorkflowStep;
use rust_adb::ADBError;

fn step_result(name: &str, success: bool) -> StepResult {
    StepResult {
        step_name: name.to_string(),
        success,
        output: None,
        error: None,
        duration_ms: 0,
    }
}

fn command_result(success: bool) -> CommandResult {
    CommandResult {
        command: "cmd".to_string(),
        success,
        output: None,
        error: None,
        duration_ms: 5,
    }
}

#[test]
fn batch_file_filtering() {
    let content = "  install one \n\n# a comment\n  # also a comment\nsecond\n";
    assert_eq!(parse_batch_commands(content), vec!["install one", "second"]);
}

#[test]
fn batch_command_assembly() {
    assert_eq!(batch_command_line("dev", "shell ls"), "-s dev shell ls");
}

#[test]
fn batch_summary_counts() {
    let results = vec![command_result(true), command_result(false), command_result(true)];
    let summary = summarize_batch(results);
    assert_eq!(summary.total_commands, 3);
    assert_eq!(summary.successful, 2);
    assert_eq!(summary.failed, 1);
    assert_eq!(summary.results.len(), 3);
}

#[test]
fn parameter_lookup() {
    let params = vec![
        ("command".to_string(), "shell ls".to_string()),
        ("device".to_string(), "emu".to_string()),
    ];
    assert_eq!(get_param(&params, "command").as_deref(), Some("shell ls"));
    assert_eq!(get_param(&params, "device").as_deref(), Some("emu"));
    assert_eq!(get_param(&params, "missing"), None);
}

#[test]
fn command_step_decision() {
    let step = WorkflowStep {
        name: "s1".to_string(),
        step_type: StepType::Command,
        parameters: vec![("command".to_string(), "shell ls".to_string())],
        continue_on_failure: false,
    };
    assert_eq!(command_of_step(&step).unwrap(), "shell ls");
    let bad = WorkflowStep {
        name: "s2".to_string(),
        step_type: StepType::Command,
        parameters: vec![],
        continue_on_failure: false,
    };
    match command_of_step(&bad) {
        Err(ADBError::InvalidArgument(m)) => assert_eq!(m, "Missing command parameter"),
        other => panic!("unexpected: {:?}", other),
    }
}

#[test]
fn conditional_step_decision() {
    let step = WorkflowStep {
        name: "cond".to_string(),
        step_type: StepType::Conditional,
        parameters: vec![
            ("condition_step".to_string(), "probe".to_string()),
            ("true_command".to_string(), "shell yes".to_string()),
            ("false_command".to_string(), "shell no".to_string()),
        ],
        continue_on_failure: false,
    };
    let ok = vec![("probe".to_string(), step_result("probe", true))];
    assert_eq!(conditional_choice(&step, &ok).unwrap().as_deref(), Some("shell yes"));
    let fail = vec![("probe".to_string(), step_result("probe", false))];
    assert_eq!(conditional_choice(&step, &fail).unwrap().as_deref(), Some("shell no"));
    let unknown: Vec<(String, StepResult)> = vec![];
    assert_eq!(conditional_choice(&step, &unknown).unwrap().as_deref(), Some("shell no"));
    let no_cond = WorkflowStep {
        name: "c2".to_string(),
        step_type: StepType::Conditional,
        parameters: vec![],
        continue_on_failure: false,
    };
    match conditional_choice(&no_cond, &ok) {
        Err(ADBError::InvalidArgument(m)) => assert_eq!(m, "Missing condition_step parameter"),
        other => panic!("unexpected: {:?}", other),
    }
}

#[test]
fn conditional_without_branch_command_skips() {
    let step = WorkflowStep {
        name: "cond".to_string(),
        step_type: StepType::Conditional,
        parameters: vec![("condition_step".to_string(), "probe".to_string())],
        continue_on_failure: false,
    };
    let ok = vec![("probe".to_string(), step_result("probe", true))];
    assert_eq!(conditional_choice(&step, &ok).unwrap(), None);
}

#[test]
fn stored_step_results_overwrite() {
    let results = vec![
        ("a".to_string(), step_result("a", false)),
        ("b".to_string(), step_result("b", true)),
        ("a".to_string(), step_result("a", true)),
    ];
    assert!(lookup_step_result(&results, "a").unwrap().success);
    assert!(lookup_step_result(&results, "b").unwrap().success);
    assert!(lookup_step_result(&results, "c").is_none());
}

#[test]
fn continue_decision() {
    let step_stop = WorkflowStep {
        name: "s".to_string(),
        step_type: StepType::Command,
        parameters: vec![],
        continue_on_failure: false,
    };
    let step_go = WorkflowStep { continue_on_failure: true, ..step_stop.clone() };
    assert!(workflow_should_continue(&step_result("s", true), &step_stop));
    assert!(!workflow_should_continue(&step_result("s", false), &step_stop));
    assert!(workflow_should_continue(&step_result("s", false), &step_go));
}

#[test]
fn semicolon_command_lists() {
    assert_eq!(split_batch_commands(" a ; b;c "), vec!["a", "b", "c"]);
    assert_eq!(split_batch_commands(""), vec![""]);
}

#[test]
fn report_messages() {
    assert_eq!(batch_step_output(2, 3), "Batch completed: 2/3 successful");
    assert_eq!(parallel_step_output(1, 4), "Parallel execution: 1/4 successful");
    assert_eq!(failed_commands_message(3), "3 commands failed");
    assert_eq!(data_collection_message(12, 34), "Data collected: 12 packages, 34 processes");
    assert_eq!(device_setup_message(true), "Device setup completed");
    assert_eq!(device_setup_message(false), "Device setup failed");
    assert_eq!(app_installation_message(true), "App installed successfully");
    assert_eq!(app_installation_message(false), "App installation failed");
}

#[test]
fn task_success_aggregation() {
    let ok = AutomationTaskResult {
        task_name: "t".to_string(),
        success: true,
        message: "m".to_string(),
    };
    let bad = AutomationTaskResult { success: false, ..ok.clone() };
    assert!(all_tasks_succeeded(&vec![ok.clone(), ok.clone()]));
    assert!(!all_tasks_succeeded(&vec![ok.clone(), bad]));
    assert!(all_tasks_succeeded(&vec![]));
}
