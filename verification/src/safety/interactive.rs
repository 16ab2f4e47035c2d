//! The selection prompt as a state machine: Tab cycles through the
//! candidate commands, Enter executes the selected one, Esc or Ctrl+C
//! aborts, and without a terminal on the error stream the first candidate
//! is output, never executed.

use vstd::prelude::*;

verus! {

/// Outcome of the selection prompt.
#[derive(Debug, Clone, Copy, PartialEq, Eq, Structural)]
pub enum CommandAction {
    /// Run the selected command.
    Execute,
    /// Hand the command out for the user to run or edit.
    Output,
    /// Do nothing.
    Abort,
}

/// Why the selection prompt could not run or finish.
#[derive(Debug, Clone, PartialEq, Eq)]
pub enum InteractiveError {
    /// Input ended before a decision was made.
    Eof,
    /// Reading a key failed.
    IoError(String),
    /// No terminal is available.
    NotTty,
    /// There were no commands to choose from.
    NoCommands,
}

/// The message text of each selection error.
pub open spec fn interactive_error_text(e: InteractiveError) -> Seq<char> {
    match e {
        InteractiveError::Eof => "EOF: stdin closed or piped"@,
        InteractiveError::IoError(msg) => "I/O error: "@ + msg@,
        InteractiveError::NotTty => "Not a TTY: interactive mode requires a terminal"@,
        InteractiveError::NoCommands => "No commands provided"@,
    }
}

impl InteractiveError {
    /// A human-readable rendering of the error.
    pub fn message(&self) -> (r: String)
        ensures
            r@ == interactive_error_text(*self),
    {
        match self {
            InteractiveError::Eof => "EOF: stdin closed or piped".to_owned(),
            InteractiveError::IoError(msg) => {
                let mut s = String::new();
                s.append("I/O error: ");
                s.append(msg.as_str());
                s
            },
            InteractiveError::NotTty => "Not a TTY: interactive mode requires a terminal".to_owned(),
            InteractiveError::NoCommands => "No commands provided".to_owned(),
        }
    }
}

/// A key event of the selection prompt, as the library reads them:
/// everything but Tab, Enter, Esc and Ctrl+C is ignored.
#[derive(Debug, Clone, Copy, PartialEq, Eq, Structural)]
pub enum Key {
    /// Cycle to the next candidate.
    Tab,
    /// Execute the selected candidate.
    Enter,
    /// Abort.
    Esc,
    /// Abort.
    CtrlC,
    /// Any other key: ignored.
    Other,
}

/// One step of the selection prompt over `total` candidates with
/// `index` selected.
#[derive(Debug, Clone, Copy, PartialEq, Eq, Structural)]
pub enum SelectionStep {
    /// Keep prompting, with the carried candidate selected.
    Continue(usize),
    /// Execute the carried candidate.
    Execute(usize),
    /// Abort the prompt.
    Abort,
}

/// Advances the selection prompt by one key: Tab cycles forward
/// circularly, Enter finishes with the selected candidate, Esc and Ctrl+C
/// abort, anything else leaves the state unchanged.
pub fn selection_step(index: usize, total: usize, key: Key) -> (r: SelectionStep)
    requires
        0 < total,
        index < total,
    ensures
        match key {
            Key::Tab => r == SelectionStep::Continue(((index + 1) as int % total as int) as usize),
            Key::Enter => r == SelectionStep::Execute(index),
            Key::Esc | Key::CtrlC => r == SelectionStep::Abort,
            Key::Other => r == SelectionStep::Continue(index),
        },
        r matches SelectionStep::Continue(i) ==> i < total,
        r matches SelectionStep::Execute(i) ==> i < total,
{
    match key {
        Key::Tab => SelectionStep::Continue((index + 1) % total),
        Key::Enter => SelectionStep::Execute(index),
        Key::Esc => SelectionStep::Abort,
        Key::CtrlC => SelectionStep::Abort,
        Key::Other => SelectionStep::Continue(index),
    }
}

/// The selection prompt run to completion on a key sequence, starting
/// with candidate `idx` selected; an exhausted sequence is an end of
/// input.
pub open spec fn run_selection(
    cmds: Seq<Seq<char>>,
    idx: int,
    keys: Seq<Key>,
) -> Result<(CommandAction, Seq<char>), InteractiveError>
    decreases keys.len(),
{
    if keys.len() == 0 {
        Err(InteractiveError::Eof)
    } else {
        match keys.first() {
            Key::Tab => run_selection(cmds, (idx + 1) % (cmds.len() as int), keys.drop_first()),
            Key::Enter => Ok((CommandAction::Execute, cmds[idx])),
            Key::Esc => Ok((CommandAction::Abort, Seq::empty())),
            Key::CtrlC => Ok((CommandAction::Abort, Seq::empty())),
            Key::Other => run_selection(cmds, idx, keys.drop_first()),
        }
    }
}

/// What the selection prompt resolves to: no candidates is an error; with
/// no terminal on the error stream the first candidate is output as-is;
/// otherwise the keys decide, starting at the first candidate.
pub open spec fn selection_outcome(
    cmds: Seq<Seq<char>>,
    stderr_tty: bool,
    keys: Seq<Key>,
) -> Result<(CommandAction, Seq<char>), InteractiveError> {
    if cmds.len() == 0 {
        Err(InteractiveError::NoCommands)
    } else if !stderr_tty {
        Ok((CommandAction::Output, cmds[0]))
    } else {
        run_selection(cmds, 0, keys)
    }
}

/// Executable and spec-level selection results agree, up to string views.
pub open spec fn selection_result_eqv(
    r: Result<(CommandAction, String), InteractiveError>,
    s: Result<(CommandAction, Seq<char>), InteractiveError>,
) -> bool {
    match (r, s) {
        (Ok((a, c)), Ok((sa, sc))) => a == sa && c@ == sc,
        (Err(InteractiveError::Eof), Err(InteractiveError::Eof)) => true,
        (Err(InteractiveError::NotTty), Err(InteractiveError::NotTty)) => true,
        (Err(InteractiveError::NoCommands), Err(InteractiveError::NoCommands)) => true,
        (Err(InteractiveError::IoError(a)), Err(InteractiveError::IoError(b))) => a@ == b@,
        _ => false,
    }
}

/// Resolves the selection prompt over `commands` given the terminal state
/// of the error stream and the keys read. Degrades to outputting the
/// first candidate when no terminal is available — never to execution.
pub fn resolve_selection(commands: &Vec<String>, stderr_tty: bool, keys: &Vec<Key>) -> (r: Result<
    (CommandAction, String),
    InteractiveError,
>)
    ensures
        selection_result_eqv(r, selection_outcome(commands.deep_view(), stderr_tty, keys@)),
{
    let ghost cmds = commands.deep_view();
    if commands.len() == 0 {
        return Err(InteractiveError::NoCommands);
    }
    if !stderr_tty {
        proof {
            assert(cmds[0] == commands[0]@);
        }
        return Ok((CommandAction::Output, commands[0].clone()));
    }
    let total: usize = commands.len();
    let mut idx: usize = 0;
    let mut k: usize = 0;
    proof {
        assert(keys@.skip(0) =~= keys@);
    }
    while k < keys.len()
        invariant
            stderr_tty,
            0 <= k <= keys@.len(),
            0 < total == commands@.len(),
            cmds == commands.deep_view(),
            idx < total,
            run_selection(cmds, 0, keys@) == run_selection(cmds, idx as int, keys@.skip(k as int)),
        decreases keys@.len() - k,
    {
        let ghost rest = keys@.skip(k as int);
        proof {
            assert(rest.first() == keys@[k as int]);
            assert(rest.drop_first() =~= keys@.skip(k + 1));
        }
        match selection_step(idx, total, keys[k]) {
            SelectionStep::Continue(i) => {
                idx = i;
            },
            SelectionStep::Execute(i) => {
                proof {
                    assert(cmds[i as int] == commands[i as int]@);
                }
                return Ok((CommandAction::Execute, commands[i].clone()));
            },
            SelectionStep::Abort => {
                return Ok((CommandAction::Abort, String::new()));
            },
        }
        k = k + 1;
    }
    proof {
        assert(keys@.skip(keys@.len() as int) =~= Seq::<Key>::empty());
    }
    Err(InteractiveError::Eof)
}

/// Without a terminal on the error stream the selection prompt resolves
/// to outputting the first candidate — never to execution.
pub proof fn lemma_no_tty_never_executes(cmds: Seq<Seq<char>>, keys: Seq<Key>)
    requires
        cmds.len() > 0,
    ensures
        selection_outcome(cmds, false, keys) == Ok::<(CommandAction, Seq<char>), InteractiveError>(
            (CommandAction::Output, cmds[0]),
        ),
        !(selection_outcome(cmds, false, keys) matches Ok((a, _)) && a is Execute),
{
}

} // verus!
