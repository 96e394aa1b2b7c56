//! Meta commands: backslash tokens that the shell handles itself instead of
//! sending them to the query backend.
use vstd::prelude::*;
use crate::text::{is_space, is_space_char, same_text, trim, trim_str};

verus! {

/// A command handled by the shell itself.
#[derive(Debug, Clone, PartialEq, Eq)]
pub enum MetaCommand {
    /// `\q`: leave the shell.
    Quit,
    /// `\h`: show the help text.
    Help,
    /// `\lc`: list the data catalogs.
    ListCatalogs,
    /// `\ld <catalog>`: list the databases of a catalog.
    ListDatabases(String),
    /// `\lt <database>`: list the tables of a database.
    ListTables(String),
}

/// A meta command with its argument as characters.
pub enum MetaCommandView {
    Quit,
    Help,
    ListCatalogs,
    ListDatabases(Seq<char>),
    ListTables(Seq<char>),
}

impl View for MetaCommand {
    type V = MetaCommandView;

    open spec fn view(&self) -> MetaCommandView {
        match self {
            MetaCommand::Quit => MetaCommandView::Quit,
            MetaCommand::Help => MetaCommandView::Help,
            MetaCommand::ListCatalogs => MetaCommandView::ListCatalogs,
            MetaCommand::ListDatabases(c) => MetaCommandView::ListDatabases(c@),
            MetaCommand::ListTables(d) => MetaCommandView::ListTables(d@),
        }
    }
}

/// The view of an optional meta command.
pub open spec fn opt_meta_view(m: Option<MetaCommand>) -> Option<MetaCommandView> {
    match m {
        Some(c) => Some(c@),
        None => None,
    }
}

/// Index of the first whitespace character of `t`, or its length if none.
pub open spec fn first_space(t: Seq<char>) -> int
    decreases t.len(),
{
    if t.len() == 0 || is_space(t[0]) {
        0
    } else {
        1 + first_space(t.drop_first())
    }
}

/// The first word of the trimmed line.
pub open spec fn head_word(line: Seq<char>) -> Seq<char> {
    let t = trim(line);
    t.subrange(0, first_space(t))
}

/// What follows the first word of the trimmed line, trimmed.
pub open spec fn argument(line: Seq<char>) -> Seq<char> {
    let t = trim(line);
    trim(t.subrange(first_space(t), t.len() as int))
}

pub open spec fn quit_token() -> Seq<char> {
    seq!['\\', 'q']
}

pub open spec fn help_token() -> Seq<char> {
    seq!['\\', 'h']
}

pub open spec fn catalogs_token() -> Seq<char> {
    seq!['\\', 'l', 'c']
}

pub open spec fn databases_token() -> Seq<char> {
    seq!['\\', 'l', 'd']
}

pub open spec fn tables_token() -> Seq<char> {
    seq!['\\', 'l', 't']
}

/// The meta command that `line` spells, if any. `\q`, `\h` and `\lc` stand
/// alone on the line; `\ld` and `\lt` take the rest of the line as their
/// argument, which must not be empty. Anything else is no meta command.
pub open spec fn meta_command(line: Seq<char>) -> Option<MetaCommandView> {
    let head = head_word(line);
    let arg = argument(line);
    if head == quit_token() && arg.len() == 0 {
        Some(MetaCommandView::Quit)
    } else if head == help_token() && arg.len() == 0 {
        Some(MetaCommandView::Help)
    } else if head == catalogs_token() && arg.len() == 0 {
        Some(MetaCommandView::ListCatalogs)
    } else if head == databases_token() && arg.len() > 0 {
        Some(MetaCommandView::ListDatabases(arg))
    } else if head == tables_token() && arg.len() > 0 {
        Some(MetaCommandView::ListTables(arg))
    } else {
        None
    }
}

proof fn lemma_first_space_at(t: Seq<char>, i: int)
    requires
        0 <= i <= t.len(),
        forall|k: int| 0 <= k < i ==> !is_space(#[trigger] t[k]),
        i == t.len() || is_space(t[i]),
    ensures
        first_space(t) == i,
    decreases i,
{
    if i > 0 {
        let u = t.drop_first();
        assert forall|k: int| 0 <= k < i - 1 implies !is_space(#[trigger] u[k]) by {
            assert(u[k] == t[k + 1]);
        }
        if i - 1 < u.len() {
            assert(u[i - 1] == t[i]);
        }
        lemma_first_space_at(u, i - 1);
    }
}

impl MetaCommand {
    /// Reads `line` as a meta command; `None` where it spells none.
    pub fn parse(line: &str) -> (r: Option<MetaCommand>)
        ensures
            opt_meta_view(r) == meta_command(line@),
    {
        let t = trim_str(line);
        let n = t.unicode_len();
        let mut h: usize = 0;
        while h < n && !is_space_char(t.get_char(h))
            invariant
                n == t@.len(),
                h <= n,
                forall|k: int| 0 <= k < h ==> !is_space(#[trigger] t@[k]),
            decreases n - h,
        {
            h = h + 1;
        }
        proof {
            lemma_first_space_at(t@, h as int);
            reveal_strlit("\\q");
            reveal_strlit("\\h");
            reveal_strlit("\\lc");
            reveal_strlit("\\ld");
            reveal_strlit("\\lt");
        }
        let head = t.substring_char(0, h);
        let arg = trim_str(t.substring_char(h, n));
        let no_arg = arg.unicode_len() == 0;
        assert("\\q"@ =~= quit_token());
        assert("\\h"@ =~= help_token());
        assert("\\lc"@ =~= catalogs_token());
        assert("\\ld"@ =~= databases_token());
        assert("\\lt"@ =~= tables_token());
        if same_text(head, "\\q") && no_arg {
            Some(MetaCommand::Quit)
        } else if same_text(head, "\\h") && no_arg {
            Some(MetaCommand::Help)
        } else if same_text(head, "\\lc") && no_arg {
            Some(MetaCommand::ListCatalogs)
        } else if same_text(head, "\\ld") && !no_arg {
            Some(MetaCommand::ListDatabases(String::from_str(arg)))
        } else if same_text(head, "\\lt") && !no_arg {
            Some(MetaCommand::ListTables(String::from_str(arg)))
        } else {
            None
        }
    }
}

} // verus!
