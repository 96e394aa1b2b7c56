//! The shell controller: reacts to input lines, interrupts and the end of
//! input, and decides what the shell does next.
use vstd::prelude::*;
use crate::assembler::{feed_step, FeedOutcome, FeedOutcomeView, StatementAssembler};
use crate::meta::{MetaCommand, MetaCommandView};
use crate::text::{eq_ignoring_ascii_case, matches_ignoring_case, same_text};

verus! {

/// What reached the shell's loop: a line, an interrupt, or the end of input.
#[derive(Debug, Clone, PartialEq, Eq)]
pub enum ShellEvent {
    Line(String),
    Interrupt,
    EndOfInput,
}

/// What the shell does in answer to an event.
#[derive(Debug, Clone, PartialEq, Eq)]
pub enum ShellAction {
    /// Nothing to do but show the prompt again.
    Wait,
    /// Run a meta command other than quit.
    Meta(MetaCommand),
    /// Submit this statement to the query backend.
    Run(String),
    /// An interrupt dropped the statement under way.
    Cleared,
    /// An interrupt came while no statement was under way: tell the
    /// operator how to leave.
    Notice,
    /// Leave the shell.
    Exit,
}

pub enum ShellActionView {
    Wait,
    Meta(MetaCommandView),
    Run(Seq<char>),
    Cleared,
    Notice,
    Exit,
}

impl View for ShellAction {
    type V = ShellActionView;

    open spec fn view(&self) -> ShellActionView {
        match self {
            ShellAction::Wait => ShellActionView::Wait,
            ShellAction::Meta(m) => ShellActionView::Meta(m@),
            ShellAction::Run(s) => ShellActionView::Run(s@),
            ShellAction::Cleared => ShellActionView::Cleared,
            ShellAction::Notice => ShellActionView::Notice,
            ShellAction::Exit => ShellActionView::Exit,
        }
    }
}

pub open spec fn exit_sentinel() -> Seq<char> {
    seq!['e', 'x', 'i', 't', ';']
}

/// Whether `s` is the statement that leaves the shell, `exit;`, either
/// exactly or with ASCII letters in any case.
pub open spec fn is_exit_statement(s: Seq<char>, ignore_case: bool) -> bool {
    if ignore_case {
        matches_ignoring_case(s, exit_sentinel())
    } else {
        s == exit_sentinel()
    }
}

/// The shell's answer to a line, given what the assembler made of it.
pub open spec fn line_action(outcome: FeedOutcomeView, ignore_case: bool) -> ShellActionView {
    match outcome {
        FeedOutcomeView::Skipped => ShellActionView::Wait,
        FeedOutcomeView::Pending => ShellActionView::Wait,
        FeedOutcomeView::Meta(m) => match m {
            MetaCommandView::Quit => ShellActionView::Exit,
            _ => ShellActionView::Meta(m),
        },
        FeedOutcomeView::Complete(s) => if is_exit_statement(s, ignore_case) {
            ShellActionView::Exit
        } else {
            ShellActionView::Run(s)
        },
    }
}

/// Whether `s` is the statement that leaves the shell.
pub fn is_exit(s: &str, ignore_case: bool) -> (r: bool)
    ensures
        r == is_exit_statement(s@, ignore_case),
{
    let word = "exit;";
    proof {
        reveal_strlit("exit;");
    }
    assert(word@ =~= exit_sentinel());
    if ignore_case {
        eq_ignoring_ascii_case(s, word)
    } else {
        same_text(s, word)
    }
}

/// The interactive shell's state: the prompt, the statement assembler, and
/// whether `exit;` is recognised in any letter case.
pub struct Repl {
    prompt: String,
    assembler: StatementAssembler,
    exit_ignores_case: bool,
}

impl Repl {
    pub closed spec fn spec_prompt(&self) -> Seq<char> {
        self.prompt@
    }

    /// The fragments of the statement under way.
    pub closed spec fn pending(&self) -> Seq<Seq<char>> {
        self.assembler@
    }

    pub closed spec fn spec_exit_ignores_case(&self) -> bool {
        self.exit_ignores_case
    }

    /// A shell for `profile`, idle, with `exit;` recognised in any case.
    pub fn new(profile: &str) -> (r: Repl)
        ensures
            r.spec_prompt() == profile@ + seq!['>', ' '],
            r.pending() == Seq::<Seq<char>>::empty(),
            r.spec_exit_ignores_case(),
    {
        Repl::with_exit_case(profile, true)
    }

    /// A shell for `profile`, idle, which takes `exit;` in any case when
    /// `ignore_case` holds and only in small letters otherwise.
    pub fn with_exit_case(profile: &str, ignore_case: bool) -> (r: Repl)
        ensures
            r.spec_prompt() == profile@ + seq!['>', ' '],
            r.pending() == Seq::<Seq<char>>::empty(),
            r.spec_exit_ignores_case() == ignore_case,
    {
        let mut prompt = String::from_str(profile);
        prompt.append("> ");
        proof {
            reveal_strlit("> ");
        }
        assert(prompt@ =~= profile@ + seq!['>', ' ']);
        Repl { prompt, assembler: StatementAssembler::new(), exit_ignores_case: ignore_case }
    }

    /// Whether a multi-line statement is under way.
    pub fn is_continuation(&self) -> (r: bool)
        ensures
            r == (self.pending().len() > 0),
    {
        self.assembler.is_accumulating()
    }

    /// The prompt to show before the next line: `"| "` while a statement is
    /// under way, `"<profile>> "` otherwise.
    pub fn prompt(&self) -> (r: &str)
        ensures
            self.pending().len() > 0 ==> r@ == seq!['|', ' '],
            self.pending().len() == 0 ==> r@ == self.spec_prompt(),
    {
        if self.assembler.is_accumulating() {
            proof {
                reveal_strlit("| ");
            }
            "| "
        } else {
            self.prompt.as_str()
        }
    }

    /// Reacts to one event. A line goes through the statement assembler; a
    /// completed `exit;`, the quit command and the end of input leave the
    /// shell. An interrupt drops the statement under way, or, if there is
    /// none, asks for a notice.
    pub fn handle(&mut self, event: ShellEvent) -> (r: ShellAction)
        ensures
            final(self).spec_prompt() == old(self).spec_prompt(),
            final(self).spec_exit_ignores_case() == old(self).spec_exit_ignores_case(),
            match event {
                ShellEvent::Line(line) => {
                    let step = feed_step(old(self).pending(), line@);
                    &&& final(self).pending() == step.0
                    &&& r@ == line_action(step.1, old(self).spec_exit_ignores_case())
                },
                ShellEvent::Interrupt => {
                    &&& final(self).pending() == Seq::<Seq<char>>::empty()
                    &&& old(self).pending().len() > 0 ==> r@ == ShellActionView::Cleared
                    &&& old(self).pending().len() == 0 ==> r@ == ShellActionView::Notice
                },
                ShellEvent::EndOfInput => {
                    &&& final(self).pending() == old(self).pending()
                    &&& r@ == ShellActionView::Exit
                },
            },
    {
        match event {
            ShellEvent::Line(line) => {
                let outcome = self.assembler.feed(line.as_str());
                match outcome {
                    FeedOutcome::Skipped => ShellAction::Wait,
                    FeedOutcome::Pending => ShellAction::Wait,
                    FeedOutcome::Meta(m) => match m {
                        MetaCommand::Quit => ShellAction::Exit,
                        _ => ShellAction::Meta(m),
                    },
                    FeedOutcome::Complete(s) => {
                        if is_exit(s.as_str(), self.exit_ignores_case) {
                            ShellAction::Exit
                        } else {
                            ShellAction::Run(s)
                        }
                    },
                }
            },
            ShellEvent::Interrupt => {
                if self.assembler.interrupt() {
                    ShellAction::Cleared
                } else {
                    ShellAction::Notice
                }
            },
            ShellEvent::EndOfInput => ShellAction::Exit,
        }
    }
}

} // verus!
