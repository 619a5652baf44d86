//! Repairing the security label and the permission bits of a staged file.
//!
//! Both repairs are done by an external tool that the caller launches. The
//! library fixes the command line and judges the outcome: the tool succeeded
//! only if it was launched and exited with status zero.

use vstd::prelude::*;
use vstd::string::*;
use crate::error::InjectionError;

verus! {

/// The tool that sets a file's security label.
pub const LABEL_TOOL: &'static str = "chcon";

/// The label under which the dynamic loader accepts a file as loadable
/// application data.
pub const LOADABLE_LABEL: &'static str = "u:object_r:apk_data_file:s0";

/// The tool that changes a file's permission bits.
pub const PERMISSION_TOOL: &'static str = "chmod";

/// The permission change that makes a file readable.
pub const ADD_READ_PERMISSION: &'static str = "+r";

/// An external tool invocation: `program argument file_path`.
#[derive(Debug, PartialEq, Eq)]
pub struct ToolCommand {
    pub program: String,
    pub argument: String,
    pub file_path: String,
}

/// A [`ToolCommand`] with its words as character sequences.
pub struct ToolCommandModel {
    pub program: Seq<char>,
    pub argument: Seq<char>,
    pub file_path: Seq<char>,
}

impl View for ToolCommand {
    type V = ToolCommandModel;

    open spec fn view(&self) -> ToolCommandModel {
        ToolCommandModel {
            program: self.program@,
            argument: self.argument@,
            file_path: self.file_path@,
        }
    }
}

/// What the caller reports back to [`fix_file_context`] and
/// [`fix_file_permissions`].
#[derive(Debug, Clone, Copy, PartialEq, Eq)]
pub enum ToolEvent {
    /// Nothing has been done yet.
    Start,
    /// The tool could not be launched.
    LaunchFailed,
    /// The tool ran and ended with exit status `code`, or without one where a
    /// signal ended it.
    Exited { code: Option<i32> },
}

/// What a fixer asks the caller to do next.
#[derive(Debug, PartialEq, Eq)]
pub enum FixAction {
    /// Launch the command, wait for it to end and report the outcome.
    Run(ToolCommand),
    /// The repair has ended, in success or in failure.
    Done(Result<(), InjectionError>),
}

/// A [`FixAction`] with the command's words as character sequences.
pub enum FixActionModel {
    Run(ToolCommandModel),
    Done(Result<(), InjectionError>),
}

impl View for FixAction {
    type V = FixActionModel;

    open spec fn view(&self) -> FixActionModel {
        match *self {
            FixAction::Run(command) => FixActionModel::Run(command@),
            FixAction::Done(result) => FixActionModel::Done(result),
        }
    }
}

/// The command that gives `file_path` the label the loader requires.
pub open spec fn context_command(file_path: Seq<char>) -> ToolCommandModel {
    ToolCommandModel { program: LABEL_TOOL@, argument: LOADABLE_LABEL@, file_path }
}

/// The command that adds read permission to `file_path`.
pub open spec fn permission_command(file_path: Seq<char>) -> ToolCommandModel {
    ToolCommandModel { program: PERMISSION_TOOL@, argument: ADD_READ_PERMISSION@, file_path }
}

/// Whether `event` reports a tool that was launched and exited with status
/// zero.
pub open spec fn tool_succeeded(event: ToolEvent) -> bool {
    event == (ToolEvent::Exited { code: Some(0i32) })
}

/// The repair rule: what follows `event` when `command` is the repair.
///
/// At the start the command is to be run. Afterwards the repair has succeeded
/// if the tool exited with status zero, and has failed with a
/// [`InjectionError::CommandError`] in every other case.
pub open spec fn fix_step(command: ToolCommandModel, event: ToolEvent) -> FixActionModel {
    match event {
        ToolEvent::Start => FixActionModel::Run(command),
        _ => if tool_succeeded(event) {
            FixActionModel::Done(Ok(()))
        } else {
            FixActionModel::Done(Err(InjectionError::CommandError))
        },
    }
}

/// One step of the repair that `command` performs.
fn repair_step(command: ToolCommand, event: ToolEvent) -> (action: FixAction)
    ensures
        action@ == fix_step(command@, event),
{
    match event {
        ToolEvent::Start => FixAction::Run(command),
        ToolEvent::LaunchFailed => FixAction::Done(Err(InjectionError::CommandError)),
        ToolEvent::Exited { code } => match code {
            Some(status) => if status == 0 {
                FixAction::Done(Ok(()))
            } else {
                FixAction::Done(Err(InjectionError::CommandError))
            },
            None => FixAction::Done(Err(InjectionError::CommandError)),
        },
    }
}

/// One step of setting the security label of `file_path` to the one the loader
/// requires: given what the caller's last action brought, the command to run,
/// or the final result.
pub fn fix_file_context(file_path: &str, event: ToolEvent) -> (action: FixAction)
    ensures
        action@ == fix_step(context_command(file_path@), event),
{
    let command = ToolCommand {
        program: String::from_str(LABEL_TOOL),
        argument: String::from_str(LOADABLE_LABEL),
        file_path: String::from_str(file_path),
    };
    repair_step(command, event)
}

/// One step of adding read permission to `file_path`: given what the caller's
/// last action brought, the command to run, or the final result.
pub fn fix_file_permissions(file_path: &str, event: ToolEvent) -> (action: FixAction)
    ensures
        action@ == fix_step(permission_command(file_path@), event),
{
    let command = ToolCommand {
        program: String::from_str(PERMISSION_TOOL),
        argument: String::from_str(ADD_READ_PERMISSION),
        file_path: String::from_str(file_path),
    };
    repair_step(command, event)
}

/// A tool that cannot be launched, is ended by a signal or exits with a
/// status other than zero fails the repair with a command error, and a repair
/// fails with nothing else.
pub proof fn lemma_tool_failure_is_command_error(command: ToolCommandModel, event: ToolEvent)
    ensures
        event is LaunchFailed ==> fix_step(command, event) == FixActionModel::Done(
            Err(InjectionError::CommandError),
        ),
        event matches ToolEvent::Exited { code } && code != Some(0i32) ==> fix_step(command, event)
            == FixActionModel::Done(Err(InjectionError::CommandError)),
        fix_step(command, event) matches FixActionModel::Done(Err(e)) ==> e
            == InjectionError::CommandError,
        fix_step(command, event) == FixActionModel::Done(Ok(())) <==> event == (ToolEvent::Exited {
            code: Some(0i32),
        }),
{
}

} // verus!
