//! The pipeline's decision core: which interaction route a generated
//! command list takes, and what each prompt outcome resolves to. The
//! surrounding program performs the prompts, prints and executions that
//! these decisions call for.

use vstd::prelude::*;
use crate::config::Config;
use crate::config_file::FileConfig;
use crate::error::ClaiError;
use crate::safety::confirmation::{confirmation_error_text, ConfirmationError, Decision};
use crate::safety::interactive::{interactive_error_text, CommandAction, InteractiveError};
use crate::strutil::dec_digits;

verus! {

/// The interaction route taken once commands are generated.
#[derive(Debug, Clone, Copy, PartialEq, Eq, Structural)]
pub enum PipelineRoute {
    /// Print every candidate and stop: no safety gate applies.
    DryRun,
    /// Confirm the dangerous first candidate before anything happens.
    DangerPrompt,
    /// Offer the candidates interactively, cycling with Tab.
    SelectionPrompt,
    /// Print the first candidate and stop.
    DirectEmit,
}

/// The route the pipeline takes: dry runs print unconditionally; a
/// dangerous first candidate is confirmed when both standard streams are
/// terminals, confirmation is enabled and force is absent, and emitted
/// as-is otherwise; safe candidates are offered interactively when asked
/// for and fully on a terminal; everything else prints the first
/// candidate.
pub open spec fn pipeline_route_spec(
    config: Config,
    file_config: FileConfig,
    first_dangerous: bool,
    stdin_tty: bool,
    stdout_tty: bool,
) -> PipelineRoute {
    if config.dry_run {
        PipelineRoute::DryRun
    } else if first_dangerous {
        if stdin_tty && stdout_tty && file_config.safety.confirm_dangerous && !config.force {
            PipelineRoute::DangerPrompt
        } else {
            PipelineRoute::DirectEmit
        }
    } else if config.interactive && stdin_tty && stdout_tty {
        PipelineRoute::SelectionPrompt
    } else {
        PipelineRoute::DirectEmit
    }
}

/// Decides the interaction route for one run, from the configuration,
/// whether the first candidate is dangerous, and the probed terminal
/// state.
pub fn pipeline_route(
    config: &Config,
    file_config: &FileConfig,
    first_dangerous: bool,
    stdin_tty: bool,
    stdout_tty: bool,
) -> (r: PipelineRoute)
    ensures
        r == pipeline_route_spec(*config, *file_config, first_dangerous, stdin_tty, stdout_tty),
{
    if config.dry_run {
        PipelineRoute::DryRun
    } else if first_dangerous {
        if stdin_tty && stdout_tty && file_config.safety.confirm_dangerous && !config.force {
            PipelineRoute::DangerPrompt
        } else {
            PipelineRoute::DirectEmit
        }
    } else if config.interactive && crate::signals::is_interactive(stdin_tty, stdout_tty) {
        PipelineRoute::SelectionPrompt
    } else {
        PipelineRoute::DirectEmit
    }
}

/// What the pipeline does next with a command.
#[derive(Debug, Clone, PartialEq, Eq)]
pub enum CommandPlan {
    /// Run the carried command through the shell.
    Run(String),
    /// Write the carried command to standard output.
    Print(String),
    /// Stop with the carried error.
    Fail(ClaiError),
    /// Write the first line as a warning to the error stream, then print
    /// the second as the command.
    PrintWithWarning(String, String),
}

/// What each danger-prompt outcome resolves to: execute and copy both
/// print the command (nothing is run behind a danger prompt); abort, and
/// any prompt failure, reject the command as a safety error.
pub open spec fn danger_plan_spec(
    first: Seq<char>,
    outcome: Result<Decision, ConfirmationError>,
    plan: CommandPlan,
) -> bool {
    match outcome {
        Ok(Decision::Execute) => plan matches CommandPlan::Print(c) && c@ == first,
        Ok(Decision::Copy) => plan matches CommandPlan::Print(c) && c@ == first,
        Ok(Decision::Abort) => plan matches CommandPlan::Fail(ClaiError::Safety(m)) && m@
            == "Command rejected by user"@,
        Err(e) => plan matches CommandPlan::Fail(ClaiError::Safety(m)) && m@
            == "Error during confirmation: "@ + confirmation_error_text(e)
            + ". Command rejected."@,
    }
}

/// Resolves the outcome of the danger prompt: a confirmed command is
/// printed (never run directly from here), and everything else — abort,
/// end of input, an invalid reply — rejects it as a safety error.
pub fn plan_after_danger_prompt(first: &str, outcome: Result<Decision, ConfirmationError>) -> (r:
    CommandPlan)
    ensures
        danger_plan_spec(first@, outcome, r),
{
    match outcome {
        Ok(Decision::Execute) => CommandPlan::Print(first.to_owned()),
        Ok(Decision::Copy) => CommandPlan::Print(first.to_owned()),
        Ok(Decision::Abort) => CommandPlan::Fail(
            ClaiError::Safety("Command rejected by user".to_owned()),
        ),
        Err(e) => {
            let mut m = String::new();
            m.append("Error during confirmation: ");
            let text = e.message();
            m.append(text.as_str());
            m.append(". Command rejected.");
            CommandPlan::Fail(ClaiError::Safety(m))
        },
    }
}

/// What each selection-prompt outcome resolves to: an execute runs the
/// selected command, an output prints it, an abort rejects, and a prompt
/// failure degrades to printing the first candidate behind a warning —
/// never to execution.
pub open spec fn selection_plan_spec(
    first: Seq<char>,
    outcome: Result<(CommandAction, String), InteractiveError>,
    plan: CommandPlan,
) -> bool {
    match outcome {
        Ok((CommandAction::Execute, cmd)) => plan matches CommandPlan::Run(c) && c@ == cmd@,
        Ok((CommandAction::Output, cmd)) => plan matches CommandPlan::Print(c) && c@ == cmd@,
        Ok((CommandAction::Abort, _)) => plan matches CommandPlan::Fail(ClaiError::Safety(m))
            && m@ == "Command rejected by user"@,
        Err(e) => plan matches CommandPlan::PrintWithWarning(w, c) && c@ == first && w@
            == "Warning: "@ + interactive_error_text(e) + ". Outputting command."@,
    }
}

/// Resolves the outcome of the selection prompt into the next step.
pub fn plan_after_selection(
    first: &str,
    outcome: Result<(CommandAction, String), InteractiveError>,
) -> (r: CommandPlan)
    ensures
        selection_plan_spec(first@, outcome, r),
{
    match outcome {
        Ok((CommandAction::Execute, cmd)) => CommandPlan::Run(cmd),
        Ok((CommandAction::Output, cmd)) => CommandPlan::Print(cmd),
        Ok((CommandAction::Abort, _)) => CommandPlan::Fail(
            ClaiError::Safety("Command rejected by user".to_owned()),
        ),
        Err(e) => {
            let mut w = String::new();
            w.append("Warning: ");
            let text = e.message();
            w.append(text.as_str());
            w.append(". Outputting command.");
            CommandPlan::PrintWithWarning(w, first.to_owned())
        },
    }
}

/// What a finished child process resolves to: exit code zero is success;
/// any other code is surfaced as a failure naming it, never swallowed.
pub fn execution_result(exit_code: i32) -> (r: Result<(), ClaiError>)
    requires
        exit_code >= 0,
    ensures
        exit_code == 0 <==> r is Ok,
        r matches Err(e) ==> e matches ClaiError::General(m) && m@ == "Command exited with code "@
            + dec_digits(exit_code as int),
{
    if exit_code == 0 {
        Ok(())
    } else {
        let mut m = String::new();
        m.append("Command exited with code ");
        let num = crate::strutil::u64_to_string(exit_code as u64);
        m.append(num.as_str());
        Err(ClaiError::General(m))
    }
}

} // verus!
