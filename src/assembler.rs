//! The statement assembler: turns raw input lines into complete statements,
//! holding the fragments of a statement that spans several lines.
use vstd::prelude::*;
use crate::meta::{meta_command, MetaCommand, MetaCommandView};
use crate::text::{
    collapse, collapse_terminator_space, ends_with_semicolon, ends_with_terminator, is_space,
    join_spaced, join_with_spaces, trim, trim_end, trim_start, trim_str,
};

verus! {

/// What one input line did to the assembler.
#[derive(Debug, Clone, PartialEq, Eq)]
pub enum FeedOutcome {
    /// The line was blank and changed nothing.
    Skipped,
    /// The line was a meta command, recognised while no statement was pending.
    Meta(MetaCommand),
    /// The line was added to the pending statement, which is not yet terminated.
    Pending,
    /// The line completed a statement, given here.
    Complete(String),
}

pub enum FeedOutcomeView {
    Skipped,
    Meta(MetaCommandView),
    Pending,
    Complete(Seq<char>),
}

impl View for FeedOutcome {
    type V = FeedOutcomeView;

    open spec fn view(&self) -> FeedOutcomeView {
        match self {
            FeedOutcome::Skipped => FeedOutcomeView::Skipped,
            FeedOutcome::Meta(m) => FeedOutcomeView::Meta(m@),
            FeedOutcome::Pending => FeedOutcomeView::Pending,
            FeedOutcome::Complete(s) => FeedOutcomeView::Complete(s@),
        }
    }
}

/// The statement that the fragments make: joined with single spaces, each
/// `" ;"` collapsed to `";"`.
pub open spec fn statement_of(fs: Seq<Seq<char>>) -> Seq<char> {
    collapse(join_spaced(fs))
}

/// One step of the assembler: the pending fragments after `line`, and what
/// `line` produced.
pub open spec fn feed_step(pending: Seq<Seq<char>>, line: Seq<char>) -> (Seq<Seq<char>>, FeedOutcomeView) {
    let t = trim(line);
    if t.len() == 0 {
        (pending, FeedOutcomeView::Skipped)
    } else if pending.len() == 0 && meta_command(line) is Some {
        (pending, FeedOutcomeView::Meta(meta_command(line)->0))
    } else if ends_with_terminator(t) {
        (Seq::empty(), FeedOutcomeView::Complete(statement_of(pending.push(t))))
    } else {
        (pending.push(t), FeedOutcomeView::Pending)
    }
}

/// The assembler's fragments and outcomes after each of `lines` in turn.
pub open spec fn feed_lines(pending: Seq<Seq<char>>, lines: Seq<Seq<char>>) -> (Seq<Seq<char>>, Seq<FeedOutcomeView>)
    decreases lines.len(),
{
    if lines.len() == 0 {
        (pending, Seq::empty())
    } else {
        let before = feed_lines(pending, lines.drop_last());
        let step = feed_step(before.0, lines.last());
        (step.0, before.1.push(step.1))
    }
}

/// Accumulates input lines into statements. It is idle while no fragment is
/// pending and accumulating otherwise.
pub struct StatementAssembler {
    pending: Vec<String>,
}

impl View for StatementAssembler {
    type V = Seq<Seq<char>>;

    closed spec fn view(&self) -> Seq<Seq<char>> {
        self.pending@.map_values(|f: String| f@)
    }
}

impl StatementAssembler {
    /// An idle assembler.
    pub fn new() -> (r: StatementAssembler)
        ensures
            r@ == Seq::<Seq<char>>::empty(),
    {
        let r = StatementAssembler { pending: Vec::new() };
        assert(r@ =~= Seq::<Seq<char>>::empty());
        r
    }

    /// Whether fragments of an unterminated statement are pending.
    pub fn is_accumulating(&self) -> (r: bool)
        ensures
            r == (self@.len() > 0),
    {
        self.pending.len() > 0
    }

    /// Number of pending fragments.
    pub fn pending_len(&self) -> (r: usize)
        ensures
            r == self@.len(),
    {
        self.pending.len()
    }

    /// Takes one input line. Blank lines change nothing; a meta command is
    /// recognised only while idle; otherwise the trimmed line is added to
    /// the pending fragments, and a line that ends with `;` completes the
    /// statement and returns the assembler to idle.
    pub fn feed(&mut self, line: &str) -> (r: FeedOutcome)
        ensures
            (final(self)@, r@) == feed_step(old(self)@, line@),
    {
        let t = trim_str(line);
        if t.unicode_len() == 0 {
            return FeedOutcome::Skipped;
        }
        if self.pending.len() == 0 {
            let m = MetaCommand::parse(line);
            if let Some(c) = m {
                return FeedOutcome::Meta(c);
            }
        }
        let ghost before = self@;
        self.pending.push(String::from_str(t));
        assert(self@ =~= before.push(t@));
        if ends_with_semicolon(t) {
            let joined = join_with_spaces(&self.pending);
            let statement = collapse_terminator_space(joined.as_str());
            self.pending = Vec::new();
            assert(self@ =~= Seq::<Seq<char>>::empty());
            FeedOutcome::Complete(statement)
        } else {
            FeedOutcome::Pending
        }
    }

    /// Drops every pending fragment. Returns whether any was pending, that
    /// is whether a statement was under way.
    pub fn interrupt(&mut self) -> (r: bool)
        ensures
            r == (old(self)@.len() > 0),
            final(self)@ == Seq::<Seq<char>>::empty(),
    {
        let was = self.pending.len() > 0;
        self.pending = Vec::new();
        assert(self@ =~= Seq::<Seq<char>>::empty());
        was
    }
}

/// A fragment as a normalised line: not empty, and with no whitespace at
/// either end.
pub open spec fn is_fragment(f: Seq<char>) -> bool {
    f.len() > 0 && !is_space(f[0]) && !is_space(f.last())
}

proof fn lemma_fragment_trimmed(f: Seq<char>)
    requires
        is_fragment(f),
    ensures
        trim(f) == f,
{
    assert(trim_start(f) == f);
    assert(trim_end(f) == f);
}

proof fn lemma_join_ends(fs: Seq<Seq<char>>)
    requires
        fs.len() > 0,
        forall|i: int| 0 <= i < fs.len() ==> is_fragment(#[trigger] fs[i]),
    ensures
        join_spaced(fs).len() > 0,
        join_spaced(fs)[0] == fs[0][0],
        join_spaced(fs).last() == fs.last().last(),
    decreases fs.len(),
{
    if fs.len() > 1 {
        let init = fs.drop_last();
        assert forall|i: int| 0 <= i < init.len() implies is_fragment(#[trigger] init[i]) by {
            assert(init[i] == fs[i]);
        }
        lemma_join_ends(init);
        assert(is_fragment(fs[fs.len() - 1]));
    } else {
        assert(is_fragment(fs[0]));
    }
}

/// While the lines fed never end with `;` once trimmed, no statement is
/// completed, and an assembler that was accumulating is accumulating still.
pub proof fn lemma_unterminated_lines_complete_nothing(
    pending: Seq<Seq<char>>,
    lines: Seq<Seq<char>>,
)
    requires
        forall|i: int| 0 <= i < lines.len() ==> !ends_with_terminator(trim(#[trigger] lines[i])),
    ensures
        feed_lines(pending, lines).1.len() == lines.len(),
        forall|i: int|
            0 <= i < lines.len() ==> !(#[trigger] feed_lines(pending, lines).1[i] is Complete),
        pending.len() > 0 ==> feed_lines(pending, lines).0.len() > 0,
    decreases lines.len(),
{
    if lines.len() > 0 {
        let init = lines.drop_last();
        assert forall|i: int| 0 <= i < init.len() implies !ends_with_terminator(
            trim(#[trigger] init[i]),
        ) by {
            assert(init[i] == lines[i]);
        }
        lemma_unterminated_lines_complete_nothing(pending, init);
        assert(!ends_with_terminator(trim(lines[lines.len() - 1])));
        let before = feed_lines(pending, init);
        let out = feed_lines(pending, lines);
        assert forall|i: int| 0 <= i < lines.len() implies !(#[trigger] out.1[i] is Complete) by {
            if i < init.len() {
                assert(out.1[i] == before.1[i]);
            }
        }
    }
}

proof fn lemma_fragment_prefix_pending(fs: Seq<Seq<char>>, k: int)
    requires
        0 <= k < fs.len(),
        forall|i: int| 0 <= i < fs.len() ==> is_fragment(#[trigger] fs[i]),
        forall|i: int| 0 <= i < fs.len() - 1 ==> !ends_with_terminator(#[trigger] fs[i]),
        meta_command(fs[0]) is None,
    ensures
        feed_lines(Seq::empty(), fs.take(k)).0 == fs.take(k),
    decreases k,
{
    if k == 0 {
        assert(fs.take(0) =~= Seq::<Seq<char>>::empty());
    } else {
        lemma_fragment_prefix_pending(fs, k - 1);
        assert(fs.take(k).drop_last() =~= fs.take(k - 1));
        assert(fs.take(k).last() == fs[k - 1]);
        assert(is_fragment(fs[k - 1]));
        lemma_fragment_trimmed(fs[k - 1]);
        assert(!ends_with_terminator(fs[k - 1]));
        assert(fs.take(k - 1).push(fs[k - 1]) =~= fs.take(k));
    }
}

/// Fragments fed one per line, where only the last ends with `;`, complete
/// the statement that they make: joined with single spaces, `" ;"`
/// collapsed. Fed joined on one line, they complete the same statement.
pub proof fn lemma_fragments_make_statement(fs: Seq<Seq<char>>)
    requires
        fs.len() > 0,
        forall|i: int| 0 <= i < fs.len() ==> is_fragment(#[trigger] fs[i]),
        forall|i: int| 0 <= i < fs.len() - 1 ==> !ends_with_terminator(#[trigger] fs[i]),
        ends_with_terminator(fs.last()),
        meta_command(fs[0]) is None,
        meta_command(join_spaced(fs)) is None,
    ensures
        feed_lines(Seq::empty(), fs).0 == Seq::<Seq<char>>::empty(),
        feed_lines(Seq::empty(), fs).1.last() == FeedOutcomeView::Complete(statement_of(fs)),
        feed_step(Seq::empty(), join_spaced(fs)) == (
        Seq::<Seq<char>>::empty(),
        FeedOutcomeView::Complete(statement_of(fs)),
        ),
{
    let n = fs.len() - 1;
    lemma_fragment_prefix_pending(fs, n);
    assert(fs.drop_last() =~= fs.take(n));
    assert(is_fragment(fs[n]));
    lemma_fragment_trimmed(fs[n]);
    assert(fs.take(n).push(fs[n]) =~= fs);
    lemma_join_ends(fs);
    let j = join_spaced(fs);
    assert(is_fragment(fs[0]));
    assert(is_fragment(j));
    lemma_fragment_trimmed(j);
    assert(Seq::<Seq<char>>::empty().push(j) =~= seq![j]);
}

} // verus!
