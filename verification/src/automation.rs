//! Batch and workflow automation: the record types, the batch-file
//! filter, the per-step decisions of the workflow runner, and the result
//! summaries.  The caller performs the commands; these functions decide
//! and aggregate.

use vstd::prelude::*;
use vstd::string::*;
use crate::error::ADBError;
use crate::text::append_u64_dec;
use crate::text::dec_str_of;
use crate::text::lines_of;
use crate::text::split_char_of;
use crate::text::split_lines;
use crate::text::split_on_char;
use crate::text::str_eq;
use crate::text::trim_str;
use crate::text::trimmed;

verus! {

/// The outcome of one command of a batch.
#[derive(Debug, Clone, PartialEq, Eq)]
pub struct CommandResult {
    pub command: String,
    pub success: bool,
    pub output: Option<String>,
    pub error: Option<String>,
    pub duration_ms: u64,
}

pub ghost struct CommandResultView {
    pub command: Seq<char>,
    pub success: bool,
    pub output: Option<Seq<char>>,
    pub error: Option<Seq<char>>,
    pub duration_ms: u64,
}

impl DeepView for CommandResult {
    type V = CommandResultView;

    open spec fn deep_view(&self) -> CommandResultView {
        CommandResultView {
            command: self.command@,
            success: self.success,
            output: self.output.deep_view(),
            error: self.error.deep_view(),
            duration_ms: self.duration_ms,
        }
    }
}

/// The summary of a whole batch.
#[derive(Debug, Clone, PartialEq, Eq)]
pub struct BatchResult {
    pub total_commands: usize,
    pub successful: usize,
    pub failed: usize,
    pub results: Vec<CommandResult>,
}

/// What kind of work one workflow step does.
#[derive(Debug, Clone, Copy, PartialEq, Eq)]
pub enum StepType {
    Command,
    Batch,
    Conditional,
    Parallel,
}

/// One step of a workflow: a name, a kind, its parameters as key-value
/// pairs, and whether a failure stops the workflow.
#[derive(Debug, Clone, PartialEq, Eq)]
pub struct WorkflowStep {
    pub name: String,
    pub step_type: StepType,
    pub parameters: Vec<(String, String)>,
    pub continue_on_failure: bool,
}

/// A named sequence of steps.
#[derive(Debug, Clone, PartialEq, Eq)]
pub struct Workflow {
    pub name: String,
    pub steps: Vec<WorkflowStep>,
}

/// The outcome of one workflow step.
#[derive(Debug, Clone, PartialEq, Eq)]
pub struct StepResult {
    pub step_name: String,
    pub success: bool,
    pub output: Option<String>,
    pub error: Option<String>,
    pub duration_ms: u64,
}

pub ghost struct StepResultView {
    pub step_name: Seq<char>,
    pub success: bool,
    pub output: Option<Seq<char>>,
    pub error: Option<Seq<char>>,
    pub duration_ms: u64,
}

impl DeepView for StepResult {
    type V = StepResultView;

    open spec fn deep_view(&self) -> StepResultView {
        StepResultView {
            step_name: self.step_name@,
            success: self.success,
            output: self.output.deep_view(),
            error: self.error.deep_view(),
            duration_ms: self.duration_ms,
        }
    }
}

/// The outcome of a whole workflow: the step outcomes are kept by step
/// name, a later outcome under the same name replacing the earlier.
#[derive(Debug, Clone, PartialEq, Eq)]
pub struct WorkflowResult {
    pub workflow_name: String,
    pub success: bool,
    pub steps_executed: usize,
    pub results: Vec<(String, StepResult)>,
}

/// What kind of work one automation task does.
#[derive(Debug, Clone, Copy, PartialEq, Eq)]
pub enum TaskType {
    DeviceSetup,
    AppInstallation,
    DataCollection,
    PerformanceTest,
}

/// One task of an automation script.
#[derive(Debug, Clone, PartialEq, Eq)]
pub struct AutomationTask {
    pub name: String,
    pub task_type: TaskType,
    pub device: String,
    pub app_path: Option<String>,
    pub duration_secs: Option<u32>,
}

/// A named sequence of tasks.
#[derive(Debug, Clone, PartialEq, Eq)]
pub struct AutomationScript {
    pub name: String,
    pub tasks: Vec<AutomationTask>,
}

/// The outcome of one automation task.
#[derive(Debug, Clone, PartialEq, Eq)]
pub struct AutomationTaskResult {
    pub task_name: String,
    pub success: bool,
    pub message: String,
}

/// The outcome of a whole automation script.
#[derive(Debug, Clone, PartialEq, Eq)]
pub struct AutomationResult {
    pub script_name: String,
    pub success: bool,
    pub tasks_completed: usize,
    pub results: Vec<AutomationTaskResult>,
}

/// The commands of a batch file: each line trimmed, blank lines and
/// comment lines left out.
pub open spec fn batch_commands_of(ls: Seq<Seq<char>>, i: int) -> Seq<Seq<char>>
    decreases ls.len() - i,
    when 0 <= i <= ls.len()
{
    if i >= ls.len() {
        Seq::empty()
    } else {
        let t = trimmed(ls[i]);
        if t.len() > 0 && t[0] != '#' {
            seq![t] + batch_commands_of(ls, i + 1)
        } else {
            batch_commands_of(ls, i + 1)
        }
    }
}

pub fn parse_batch_commands(content: &str) -> (r: Vec<String>)
    ensures
        r.deep_view() == batch_commands_of(lines_of(content@), 0),
{
    let lines = split_lines(content);
    let ghost ls = lines_of(content@);
    let mut out: Vec<String> = Vec::new();
    let n = lines.len();
    let mut i: usize = 0;
    proof {
        assert(out.deep_view() =~= Seq::<Seq<char>>::empty());
        assert(out.deep_view() + batch_commands_of(ls, 0) =~= batch_commands_of(ls, 0));
    }
    while i < n
        invariant
            lines.deep_view() == ls,
            n == ls.len(),
            n == lines@.len(),
            0 <= i <= n,
            batch_commands_of(ls, 0) == out.deep_view() + batch_commands_of(ls, i as int),
        decreases n - i,
    {
        proof {
            assert(lines.deep_view()[i as int] == lines@[i as int]@);
        }
        let t = trim_str(lines[i].as_str());
        let keep = if t.unicode_len() > 0 {
            t.as_str().get_char(0) != '#'
        } else {
            false
        };
        if keep {
            let ghost prev = out.deep_view();
            let ghost tv = t@;
            out.push(t);
            proof {
                assert(out.deep_view() =~= prev.push(tv));
                assert(prev + (seq![tv] + batch_commands_of(ls, i + 1)) =~= out.deep_view()
                    + batch_commands_of(ls, i + 1));
            }
        }
        i += 1;
    }
    proof {
        assert(out.deep_view() + Seq::<Seq<char>>::empty() =~= out.deep_view());
    }
    out
}

/// The argument string that runs one batch command on a device.
pub fn batch_command_line(device: &str, command: &str) -> (r: String)
    ensures
        r@ == "-s "@ + device@ + " "@ + command@,
{
    let mut s = "-s ".to_owned();
    s.append(device);
    s.append(" ");
    s.append(command);
    s
}

/// How many of the outcomes at or after `i` report success.
pub open spec fn count_successes(rs: Seq<CommandResultView>, i: int) -> int
    decreases rs.len() - i,
    when 0 <= i <= rs.len()
{
    if i >= rs.len() {
        0
    } else {
        (if rs[i].success {
            1int
        } else {
            0int
        }) + count_successes(rs, i + 1)
    }
}

proof fn lemma_count_successes_bound(rs: Seq<CommandResultView>, i: int)
    requires
        0 <= i <= rs.len(),
    ensures
        0 <= count_successes(rs, i) <= rs.len() - i,
    decreases rs.len() - i,
{
    if i < rs.len() {
        lemma_count_successes_bound(rs, i + 1);
    }
}

/// The batch summary of a list of outcomes: how many there are, how many
/// succeeded and how many failed, with the outcomes themselves.
pub fn summarize_batch(results: Vec<CommandResult>) -> (r: BatchResult)
    ensures
        r.total_commands == results@.len(),
        r.successful as int == count_successes(results.deep_view(), 0),
        r.failed as int == results@.len() - count_successes(results.deep_view(), 0),
        r.results == results,
{
    let ghost rs = results.deep_view();
    let n = results.len();
    let mut successful: usize = 0;
    let mut failed: usize = 0;
    let mut i: usize = 0;
    while i < n
        invariant
            rs == results.deep_view(),
            n == rs.len(),
            n == results@.len(),
            0 <= i <= n,
            successful + failed == i,
            count_successes(rs, 0) == successful + count_successes(rs, i as int),
        decreases n - i,
    {
        proof {
            assert(results.deep_view()[i as int] == results@[i as int].deep_view());
            lemma_count_successes_bound(rs, i + 1);
        }
        if results[i].success {
            successful += 1;
        } else {
            failed += 1;
        }
        i += 1;
    }
    BatchResult { total_commands: n, successful, failed, results }
}

/// The value under `key` among the parameter pairs, the first pair with
/// the key deciding.
pub open spec fn param_value(ps: Seq<(Seq<char>, Seq<char>)>, i: int, key: Seq<char>) -> Option<
    Seq<char>,
>
    decreases ps.len() - i,
    when 0 <= i <= ps.len()
{
    if i >= ps.len() {
        None
    } else if ps[i].0 == key {
        Some(ps[i].1)
    } else {
        param_value(ps, i + 1, key)
    }
}

pub fn get_param(parameters: &Vec<(String, String)>, key: &str) -> (r: Option<String>)
    ensures
        r is None <==> param_value(parameters.deep_view(), 0, key@) is None,
        r matches Some(v) ==> param_value(parameters.deep_view(), 0, key@) == Some(v@),
{
    let ghost ps = parameters.deep_view();
    let n = parameters.len();
    let mut i: usize = 0;
    while i < n
        invariant
            ps == parameters.deep_view(),
            n == ps.len(),
            n == parameters@.len(),
            0 <= i <= n,
            param_value(ps, 0, key@) == param_value(ps, i as int, key@),
        decreases n - i,
    {
        proof {
            assert(parameters.deep_view()[i as int] == parameters@[i as int].deep_view());
        }
        if str_eq(parameters[i].0.as_str(), key) {
            return Some(parameters[i].1.clone());
        }
        i += 1;
    }
    None
}

/// The command a command step names, or the invalid-argument error of a
/// step that names none.
pub fn command_of_step(step: &WorkflowStep) -> (r: Result<String, ADBError>)
    ensures
        param_value(step.parameters.deep_view(), 0, "command"@) matches Some(c) ==> (r matches Ok(
            cmd,
        ) && cmd@ == c),
        param_value(step.parameters.deep_view(), 0, "command"@) is None ==> (r matches Err(e) && (
        e matches ADBError::InvalidArgument(m) && m@ == "Missing command parameter"@)),
{
    match get_param(&step.parameters, "command") {
        Some(c) => Ok(c),
        None => Err(ADBError::InvalidArgument("Missing command parameter".to_owned())),
    }
}

/// The device and the split, trimmed command list a batch step names, or
/// the invalid-argument error of a step that lacks either parameter.
pub open spec fn trimmed_pieces(ps: Seq<Seq<char>>, i: int) -> Seq<Seq<char>>
    decreases ps.len() - i,
    when 0 <= i <= ps.len()
{
    if i >= ps.len() {
        Seq::empty()
    } else {
        seq![trimmed(ps[i])] + trimmed_pieces(ps, i + 1)
    }
}

pub fn split_batch_commands(commands_str: &str) -> (r: Vec<String>)
    ensures
        r.deep_view() == trimmed_pieces(split_char_of(commands_str@, ';'), 0),
{
    let pieces = split_on_char(commands_str, ';');
    let ghost ps = split_char_of(commands_str@, ';');
    let mut out: Vec<String> = Vec::new();
    let n = pieces.len();
    let mut i: usize = 0;
    proof {
        assert(out.deep_view() =~= Seq::<Seq<char>>::empty());
        assert(out.deep_view() + trimmed_pieces(ps, 0) =~= trimmed_pieces(ps, 0));
    }
    while i < n
        invariant
            pieces.deep_view() == ps,
            n == ps.len(),
            n == pieces@.len(),
            0 <= i <= n,
            trimmed_pieces(ps, 0) == out.deep_view() + trimmed_pieces(ps, i as int),
        decreases n - i,
    {
        proof {
            assert(pieces.deep_view()[i as int] == pieces@[i as int]@);
        }
        let t = trim_str(pieces[i].as_str());
        let ghost prev = out.deep_view();
        let ghost tv = t@;
        out.push(t);
        proof {
            assert(out.deep_view() =~= prev.push(tv));
            assert(prev + (seq![tv] + trimmed_pieces(ps, i + 1)) =~= out.deep_view()
                + trimmed_pieces(ps, i + 1));
        }
        i += 1;
    }
    proof {
        assert(out.deep_view() + Seq::<Seq<char>>::empty() =~= out.deep_view());
    }
    out
}

/// The outcome kept for a step name: the most recently stored one, as a
/// keyed store that overwrites would keep it.
pub open spec fn stored_step_result(rs: Seq<(Seq<char>, StepResultView)>, name: Seq<char>) -> Option<
    StepResultView,
>
    decreases rs.len(),
{
    if rs.len() == 0 {
        None
    } else if rs.last().0 == name {
        Some(rs.last().1)
    } else {
        stored_step_result(rs.drop_last(), name)
    }
}

pub fn lookup_step_result<'a>(
    results: &'a Vec<(String, StepResult)>,
    name: &str,
) -> (r: Option<&'a StepResult>)
    ensures
        r is None <==> stored_step_result(results.deep_view(), name@) is None,
        r matches Some(res) ==> stored_step_result(results.deep_view(), name@) == Some(
            res.deep_view(),
        ),
{
    let ghost rs = results.deep_view();
    let n = results.len();
    let mut j: usize = n;
    proof {
        assert(rs.take(n as int) =~= rs);
    }
    while j > 0
        invariant
            rs == results.deep_view(),
            n == rs.len(),
            n == results@.len(),
            0 <= j <= n,
            stored_step_result(rs, name@) == stored_step_result(rs.take(j as int), name@),
        decreases j,
    {
        proof {
            assert(results.deep_view()[j - 1] == results@[j - 1].deep_view());
            assert(rs.take(j as int).last() == rs[j - 1]);
            assert(rs.take(j as int).drop_last() =~= rs.take(j - 1));
        }
        if str_eq(results[j - 1].0.as_str(), name) {
            return Some(&results[j - 1].1);
        }
        j -= 1;
    }
    proof {
        assert(rs.take(0) =~= Seq::<(Seq<char>, StepResultView)>::empty());
    }
    None
}

/// What a conditional step decides: the name of the condition step, read
/// from its parameters, picks the stored outcome; its success chooses
/// the true command, anything else the false command; a step without a
/// condition name is an invalid-argument error.
pub fn conditional_choice(
    step: &WorkflowStep,
    previous_results: &Vec<(String, StepResult)>,
) -> (r: Result<Option<String>, ADBError>)
    ensures
        param_value(step.parameters.deep_view(), 0, "condition_step"@) is None ==> (r matches Err(
        e) && (e matches ADBError::InvalidArgument(m) && m@
            == "Missing condition_step parameter"@)),
        param_value(step.parameters.deep_view(), 0, "condition_step"@) matches Some(cond) ==> {
            let success = match stored_step_result(previous_results.deep_view(), cond) {
                Some(res) => res.success,
                None => false,
            };
            let chosen = if success {
                param_value(step.parameters.deep_view(), 0, "true_command"@)
            } else {
                param_value(step.parameters.deep_view(), 0, "false_command"@)
            };
            match chosen {
                Some(c) => r matches Ok(cmd) && (cmd matches Some(v) && v@ == c),
                None => r matches Ok(cmd) && cmd is None,
            }
        },
{
    let cond = match get_param(&step.parameters, "condition_step") {
        Some(c) => c,
        None => {
            return Err(ADBError::InvalidArgument("Missing condition_step parameter".to_owned()));
        },
    };
    let condition_success = match lookup_step_result(previous_results, cond.as_str()) {
        Some(res) => res.success,
        None => false,
    };
    if condition_success {
        Ok(get_param(&step.parameters, "true_command"))
    } else {
        Ok(get_param(&step.parameters, "false_command"))
    }
}

/// Whether a workflow goes on after a step: it does unless the step
/// failed and was not marked to continue on failure.
pub fn workflow_should_continue(result: &StepResult, step: &WorkflowStep) -> (r: bool)
    ensures
        r == (result.success || step.continue_on_failure),
{
    result.success || step.continue_on_failure
}

/// The batch-step report line: how many commands succeeded out of how
/// many.
pub fn batch_step_output(successful: usize, total: usize) -> (r: String)
    ensures
        r@ == "Batch completed: "@ + dec_str_of(successful as int) + "/"@ + dec_str_of(total as int)
            + " successful"@,
{
    let mut s = "Batch completed: ".to_owned();
    append_u64_dec(&mut s, successful as u64);
    s.append("/");
    append_u64_dec(&mut s, total as u64);
    s.append(" successful");
    s
}

/// The parallel-step report line.
pub fn parallel_step_output(successful: usize, total: usize) -> (r: String)
    ensures
        r@ == "Parallel execution: "@ + dec_str_of(successful as int) + "/"@ + dec_str_of(
            total as int,
        ) + " successful"@,
{
    let mut s = "Parallel execution: ".to_owned();
    append_u64_dec(&mut s, successful as u64);
    s.append("/");
    append_u64_dec(&mut s, total as u64);
    s.append(" successful");
    s
}

/// The failure report line of a batch or parallel step.
pub fn failed_commands_message(failed: usize) -> (r: String)
    ensures
        r@ == dec_str_of(failed as int) + " commands failed"@,
{
    let mut s = crate::text::u64_to_string(failed as u64);
    s.append(" commands failed");
    s
}

/// The data-collection report line: how many packages and processes were
/// seen.
pub fn data_collection_message(package_count: usize, process_count: usize) -> (r: String)
    ensures
        r@ == "Data collected: "@ + dec_str_of(package_count as int) + " packages, "@ + dec_str_of(
            process_count as int,
        ) + " processes"@,
{
    let mut s = "Data collected: ".to_owned();
    append_u64_dec(&mut s, package_count as u64);
    s.append(" packages, ");
    append_u64_dec(&mut s, process_count as u64);
    s.append(" processes");
    s
}

/// The device-setup report line.
pub fn device_setup_message(success: bool) -> (r: String)
    ensures
        success ==> r@ == "Device setup completed"@,
        !success ==> r@ == "Device setup failed"@,
{
    if success {
        "Device setup completed".to_owned()
    } else {
        "Device setup failed".to_owned()
    }
}

/// The app-installation report line.
pub fn app_installation_message(success: bool) -> (r: String)
    ensures
        success ==> r@ == "App installed successfully"@,
        !success ==> r@ == "App installation failed"@,
{
    if success {
        "App installed successfully".to_owned()
    } else {
        "App installation failed".to_owned()
    }
}

/// Whether every task outcome reports success.
pub fn all_tasks_succeeded(results: &Vec<AutomationTaskResult>) -> (r: bool)
    ensures
        r == (forall|i: int| 0 <= i < results@.len() ==> results@[i].success),
{
    let n = results.len();
    let mut i: usize = 0;
    while i < n
        invariant
            n == results@.len(),
            0 <= i <= n,
            forall|j: int| 0 <= j < i ==> results@[j].success,
        decreases n - i,
    {
        if !results[i].success {
            return false;
        }
        i += 1;
    }
    true
}

/// The argument string that switches the development settings of a
/// device on.
pub fn enable_development_settings_command(device: &str) -> (r: String)
    ensures
        r@ == "-s "@ + device@ + " shell settings put global development_settings_enabled 1"@,
{
    let mut s = "-s ".to_owned();
    s.append(device);
    s.append(" shell settings put global development_settings_enabled 1");
    s
}

} // verus!
