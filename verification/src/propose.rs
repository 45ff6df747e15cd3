//! What the command line asks of the `propose` command.

use crate::text::{decimal_text, digits_of};
use vstd::prelude::*;
use vstd::string::*;

verus! {

/// The options of the `propose` command.
#[derive(Clone, Copy, Debug, PartialEq, Eq, Structural)]
pub struct Options {
    /// Whether to create a proposal rather than list the proposals.
    pub create: bool,
    pub verbose: bool,
}

impl Default for Options {
    /// The options of a command line without arguments.
    fn default() -> (options: Options)
        ensures
            !options.create,
            !options.verbose,
    {
        Options { create: false, verbose: false }
    }
}

/// A flag of the `propose` command.
#[derive(Clone, Copy, Debug, PartialEq, Eq, Structural)]
pub enum Flag {
    /// `--create` or `-c`.
    Create,
    /// `--verbose` or `-v`.
    Verbose,
    /// `--help`.
    Help,
    /// Anything else.
    Unexpected,
}

/// Why the arguments were refused.
#[derive(Clone, Copy, Debug, PartialEq, Eq, Structural)]
pub enum ArgsError {
    /// The user asked for help.
    Help,
    /// An argument that the command does not know.
    Unexpected,
}

/// The options that the first argument asks for. Further arguments are not
/// read.
pub open spec fn options_of(first: Option<Flag>) -> Result<Options, ArgsError> {
    match first {
        None => Ok(Options { create: false, verbose: false }),
        Some(Flag::Create) => Ok(Options { create: true, verbose: false }),
        Some(Flag::Verbose) => Ok(Options { create: false, verbose: true }),
        Some(Flag::Help) => Err(ArgsError::Help),
        Some(Flag::Unexpected) => Err(ArgsError::Unexpected),
    }
}

impl Options {
    /// The options that the first argument of the command line asks for.
    pub fn from_first(first: Option<Flag>) -> (result: Result<Options, ArgsError>)
        ensures
            result == options_of(first),
    {
        match first {
            None => Ok(Options { create: false, verbose: false }),
            Some(Flag::Create) => Ok(Options { create: true, verbose: false }),
            Some(Flag::Verbose) => Ok(Options { create: false, verbose: true }),
            Some(Flag::Help) => Err(ArgsError::Help),
            Some(Flag::Unexpected) => Err(ArgsError::Unexpected),
        }
    }
}

/// A question that the command puts to the user.
#[derive(Clone, Copy, Debug, PartialEq, Eq, Structural)]
pub enum Prompt {
    ViewChanges,
    Update,
    Create,
    Submit,
    Sync,
}

/// What the command does next.
#[derive(Clone, Copy, Debug, PartialEq, Eq, Structural)]
pub enum Step {
    /// Put a question to the user.
    Ask(Prompt),
    /// Show the changes between the branches.
    ShowChanges,
    /// Have the user write title and description.
    Write,
    /// Make the proposal and its patch.
    Publish,
    /// Synchronise with the seed.
    Synchronize,
    /// End: the proposal stands.
    Done,
    /// End: the user has cancelled.
    Canceled,
}

impl Prompt {
    /// The words of the question.
    pub open spec fn words(self) -> Seq<char> {
        match self {
            Prompt::ViewChanges => "View changes?"@,
            Prompt::Update => "Proposal already exists. Do you want to update?"@,
            Prompt::Create => "Create proposal using commit(s) above?"@,
            Prompt::Submit => "Submit using title and description?"@,
            Prompt::Sync => "Sync to seed?"@,
        }
    }

    /// The answer that is offered to the user, where one is.
    pub open spec fn offered(self) -> Option<bool> {
        match self {
            Prompt::ViewChanges | Prompt::Update => None,
            Prompt::Create | Prompt::Submit | Prompt::Sync => Some(true),
        }
    }

    /// The words of the question.
    pub fn question(self) -> (words: String)
        ensures
            words@ == self.words(),
    {
        match self {
            Prompt::ViewChanges => String::from_str("View changes?"),
            Prompt::Update => String::from_str("Proposal already exists. Do you want to update?"),
            Prompt::Create => String::from_str("Create proposal using commit(s) above?"),
            Prompt::Submit => String::from_str("Submit using title and description?"),
            Prompt::Sync => String::from_str("Sync to seed?"),
        }
    }

    /// The answer that is offered to the user, where one is.
    pub fn default_answer(self) -> (answer: Option<bool>)
        ensures
            answer == self.offered(),
    {
        match self {
            Prompt::ViewChanges | Prompt::Update => None,
            Prompt::Create | Prompt::Submit | Prompt::Sync => Some(true),
        }
    }
}

/// The question whether to go on: to update where a proposal exists, else
/// to create one.
pub open spec fn go_on(exists: bool) -> Step {
    if exists {
        Step::Ask(Prompt::Update)
    } else {
        Step::Ask(Prompt::Create)
    }
}

/// What follows `step`, given the answer where `step` was a question, and
/// whether a proposal exists for the commit. The command asks whether to
/// show the changes, then whether to go on, has the proposal written, asks
/// whether to submit it, publishes it, and asks whether to synchronise. A
/// no to going on or to submitting cancels.
pub open spec fn following(step: Step, yes: bool, exists: bool) -> Step {
    match step {
        Step::Ask(Prompt::ViewChanges) => if yes {
            Step::ShowChanges
        } else {
            go_on(exists)
        },
        Step::ShowChanges => go_on(exists),
        Step::Ask(Prompt::Update) | Step::Ask(Prompt::Create) => if yes {
            Step::Write
        } else {
            Step::Canceled
        },
        Step::Write => Step::Ask(Prompt::Submit),
        Step::Ask(Prompt::Submit) => if yes {
            Step::Publish
        } else {
            Step::Canceled
        },
        Step::Publish => Step::Ask(Prompt::Sync),
        Step::Ask(Prompt::Sync) => if yes {
            Step::Synchronize
        } else {
            Step::Done
        },
        Step::Synchronize => Step::Done,
        Step::Done => Step::Done,
        Step::Canceled => Step::Canceled,
    }
}

/// The first step of creating a proposal.
pub fn first_step() -> (step: Step)
    ensures
        step == Step::Ask(Prompt::ViewChanges),
{
    Step::Ask(Prompt::ViewChanges)
}

/// The step that follows `step`.
pub fn next_step(step: Step, yes: bool, exists: bool) -> (next: Step)
    ensures
        next == following(step, yes, exists),
{
    let go_on = if exists {
        Step::Ask(Prompt::Update)
    } else {
        Step::Ask(Prompt::Create)
    };
    match step {
        Step::Ask(Prompt::ViewChanges) => if yes {
            Step::ShowChanges
        } else {
            go_on
        },
        Step::ShowChanges => go_on,
        Step::Ask(Prompt::Update) | Step::Ask(Prompt::Create) => if yes {
            Step::Write
        } else {
            Step::Canceled
        },
        Step::Write => Step::Ask(Prompt::Submit),
        Step::Ask(Prompt::Submit) => if yes {
            Step::Publish
        } else {
            Step::Canceled
        },
        Step::Publish => Step::Ask(Prompt::Sync),
        Step::Ask(Prompt::Sync) => if yes {
            Step::Synchronize
        } else {
            Step::Done
        },
        Step::Synchronize => Step::Done,
        Step::Done => Step::Done,
        Step::Canceled => Step::Canceled,
    }
}

/// How many steps creating a proposal may still take from `step`.
pub open spec fn steps_left(step: Step) -> nat {
    match step {
        Step::Ask(Prompt::ViewChanges) => 8,
        Step::ShowChanges => 7,
        Step::Ask(Prompt::Update) | Step::Ask(Prompt::Create) => 6,
        Step::Write => 5,
        Step::Ask(Prompt::Submit) => 4,
        Step::Publish => 3,
        Step::Ask(Prompt::Sync) => 2,
        Step::Synchronize => 1,
        Step::Done | Step::Canceled => 0,
    }
}

/// Creating a proposal comes to an end: each step leaves fewer steps to
/// take, whatever the answer, until `Done` or `Canceled` is reached, where
/// the command stays.
pub proof fn lemma_flow_ends(step: Step, yes: bool, exists: bool)
    ensures
        steps_left(step) > 0 ==> steps_left(following(step, yes, exists)) < steps_left(step),
        steps_left(step) == 0 ==> following(step, yes, exists) == step,
        steps_left(step) == 0 <==> step == Step::Done || step == Step::Canceled,
{
}

/// The line that says what is proposed: the branch to merge into and the
/// branch to merge, each with the short identifier of its commit.
pub fn proposing(target: &str, target_id: &str, branch: &str, branch_id: &str) -> (line: String)
    ensures
        line@ == "Proposing "@ + target@ + " ("@ + target_id@ + ") <= "@ + branch@ + " ("@ + branch_id@
            + ")."@,
{
    let mut line = String::from_str("Proposing ");
    line.append(target);
    line.append(" (");
    line.append(target_id);
    line.append(") <= ");
    line.append(branch);
    line.append(" (");
    line.append(branch_id);
    line.append(").");
    assert(line@ =~= "Proposing "@ + target@ + " ("@ + target_id@ + ") <= "@ + branch@ + " ("@
        + branch_id@ + ")."@);
    line
}

/// The line that says how far the branch is ahead of and behind `target`.
pub fn distance(ahead: usize, behind: usize, target: &str) -> (line: String)
    ensures
        line@ == "This branch is "@ + digits_of(ahead as nat) + " commit(s) ahead, "@ + digits_of(
            behind as nat,
        ) + " commit(s) behind "@ + target@ + "."@,
{
    let mut line = String::from_str("This branch is ");
    line.append(decimal_text(ahead).as_str());
    line.append(" commit(s) ahead, ");
    line.append(decimal_text(behind).as_str());
    line.append(" commit(s) behind ");
    line.append(target);
    line.append(".");
    assert(line@ =~= "This branch is "@ + digits_of(ahead as nat) + " commit(s) ahead, "@ + digits_of(
        behind as nat,
    ) + " commit(s) behind "@ + target@ + "."@);
    line
}

} // verus!
