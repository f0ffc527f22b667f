//! The client's truncating output buffer.
//!
//! With a capacity `n > 0`, the first `n / 2` lines of a build are shown as
//! they arrive, and the most recent `n - n / 2` lines are withheld in a ring
//! until the build ends. At the end the ring is flushed, preceded by a marker
//! with the number of lines that were dropped, if any were. A capacity of
//! zero turns truncation off: every line is shown as it arrives.
use std::collections::VecDeque;
use vstd::prelude::*;

verus! {

/// One line of build output and the stream it came from.
#[derive(Debug, PartialEq, Eq)]
pub struct OutputLine {
    pub content: String,
    pub is_stderr: bool,
}

impl Clone for OutputLine {
    fn clone(&self) -> (r: Self)
        ensures
            r == *self,
    {
        OutputLine { content: self.content.clone(), is_stderr: self.is_stderr }
    }
}

/// Something the renderer prints.
#[derive(Debug, PartialEq, Eq)]
pub enum Emission {
    /// A line, printed to the stream it is tagged with.
    Line(OutputLine),
    /// The marker saying how many lines were left out.
    Truncated(usize),
}

/// Number of earliest lines shown as they arrive, for a capacity `n > 0`.
pub open spec fn head_limit(n: nat) -> nat {
    n / 2
}

/// Number of most recent lines withheld until the end, for a capacity `n > 0`.
pub open spec fn tail_limit(n: nat) -> nat {
    (n - n / 2) as nat
}

/// The lines as emissions, in order.
pub open spec fn as_emissions(ls: Seq<OutputLine>) -> Seq<Emission> {
    ls.map_values(|l: OutputLine| Emission::Line(l))
}

/// The lines retained at the front, after `seen` was pushed.
pub open spec fn kept_head(n: nat, seen: Seq<OutputLine>) -> Seq<OutputLine> {
    if n == 0 {
        seq![]
    } else if seen.len() <= head_limit(n) {
        seen
    } else {
        seen.take(head_limit(n) as int)
    }
}

/// The withheld lines, oldest first, after `seen` was pushed.
pub open spec fn kept_tail(n: nat, seen: Seq<OutputLine>) -> Seq<OutputLine> {
    if n == 0 || seen.len() <= head_limit(n) {
        seq![]
    } else if seen.len() <= n {
        seen.skip(head_limit(n) as int)
    } else {
        seen.skip(seen.len() - tail_limit(n))
    }
}

/// What a push of `line` shows at once, after `seen` was pushed.
pub open spec fn shown_on_push(n: nat, seen: Seq<OutputLine>, line: OutputLine) -> Option<
    OutputLine,
> {
    if n == 0 || seen.len() < head_limit(n) {
        Some(line)
    } else {
        None
    }
}

/// Everything shown while the lines `ls` were pushed one by one.
pub open spec fn shown_live(n: nat, ls: Seq<OutputLine>) -> Seq<Emission>
    decreases ls.len(),
{
    if ls.len() == 0 {
        seq![]
    } else {
        let prev = ls.drop_last();
        shown_live(n, prev) + match shown_on_push(n, prev, ls.last()) {
            Some(l) => seq![Emission::Line(l)],
            None => seq![],
        }
    }
}

/// What the final flush prints, after `seen` was pushed.
pub open spec fn flushed(n: nat, seen: Seq<OutputLine>) -> Seq<Emission> {
    if n == 0 {
        seq![]
    } else if seen.len() > n {
        seq![Emission::Truncated((seen.len() - n) as usize)] + as_emissions(kept_tail(n, seen))
    } else {
        as_emissions(kept_tail(n, seen))
    }
}

/// The whole rendering of a build's lines `ls` under capacity `n`: all of
/// them when they fit, else the earliest `n / 2`, the marker with the number
/// left out, and the latest `n - n / 2`.
pub open spec fn rendered(n: nat, ls: Seq<OutputLine>) -> Seq<Emission> {
    if n == 0 || ls.len() <= n {
        as_emissions(ls)
    } else {
        as_emissions(ls.take(head_limit(n) as int)) + seq![
            Emission::Truncated((ls.len() - n) as usize),
        ] + as_emissions(ls.skip(ls.len() - tail_limit(n)))
    }
}

/// Keeps the first half of a build's output and the most recent rest.
pub struct TruncatingBuffer {
    max_lines: usize,
    head: Vec<OutputLine>,
    tail: VecDeque<OutputLine>,
    total_count: usize,
    head_limit: usize,
    tail_limit: usize,
    seen: Ghost<Seq<OutputLine>>,
}

impl TruncatingBuffer {
    /// The capacity the buffer was made with.
    pub closed spec fn capacity(&self) -> nat {
        self.max_lines as nat
    }

    /// Every line pushed so far, in order.
    pub closed spec fn pushed(&self) -> Seq<OutputLine> {
        self.seen@
    }

    /// The retained head and tail are those that the pushed lines leave.
    pub closed spec fn wf(&self) -> bool {
        let n = self.max_lines as nat;
        &&& self.head_limit as nat == head_limit(n)
        &&& self.tail_limit as nat == tail_limit(n)
        &&& self.total_count as nat == self.seen@.len()
        &&& self.head@ == kept_head(n, self.seen@)
        &&& self.tail@ == kept_tail(n, self.seen@)
    }

    /// An empty buffer of capacity `max_lines` (zero: no truncation).
    pub fn new(max_lines: usize) -> (r: Self)
        ensures
            r.wf(),
            r.capacity() == max_lines,
            r.pushed() == Seq::<OutputLine>::empty(),
    {
        let head_limit = max_lines / 2;
        let tail_limit = max_lines - head_limit;
        TruncatingBuffer {
            max_lines,
            head: Vec::new(),
            tail: VecDeque::new(),
            total_count: 0,
            head_limit,
            tail_limit,
            seen: Ghost(Seq::empty()),
        }
    }

    /// Number of lines pushed so far.
    pub fn total_count(&self) -> (r: usize)
        requires
            self.wf(),
        ensures
            r == self.pushed().len(),
    {
        self.total_count
    }

    /// Takes the next line; returns it when it is to be shown at once.
    pub fn push(&mut self, line: OutputLine) -> (shown: Option<OutputLine>)
        requires
            old(self).wf(),
            old(self).pushed().len() < usize::MAX,
        ensures
            final(self).wf(),
            final(self).capacity() == old(self).capacity(),
            final(self).pushed() == old(self).pushed().push(line),
            shown == shown_on_push(old(self).capacity(), old(self).pushed(), line),
    {
        let ghost n = self.max_lines as nat;
        self.seen = Ghost(self.seen@.push(line));
        self.total_count = self.total_count + 1;
        if self.max_lines == 0 {
            return Some(line);
        }
        if self.head.len() < self.head_limit {
            let shown = line.clone();
            self.head.push(line);
            assert(self.head@ =~= kept_head(n, self.seen@));
            Some(shown)
        } else {
            if self.tail.len() >= self.tail_limit {
                self.tail.pop_front();
            }
            self.tail.push_back(line);
            assert(self.head@ =~= kept_head(n, self.seen@));
            assert(self.tail@ =~= kept_tail(n, self.seen@));
            None
        }
    }

    /// Ends the build: what is printed after the last line arrived.
    pub fn finish(self) -> (r: Vec<Emission>)
        requires
            self.wf(),
        ensures
            r@ == flushed(self.capacity(), self.pushed()),
    {
        let mut out: Vec<Emission> = Vec::new();
        if self.max_lines == 0 {
            return out;
        }
        let ghost n = self.max_lines as nat;
        let ghost rest = self.tail@;
        let kept = self.head.len() + self.tail.len();
        if self.total_count > kept {
            out.push(Emission::Truncated(self.total_count - kept));
        }
        let ghost start = out@;
        let mut tail = self.tail;
        while tail.len() > 0
            invariant
                rest == kept_tail(n, self.seen@),
                tail@.len() <= rest.len(),
                out@ == start + as_emissions(rest.take(rest.len() - tail@.len())),
                tail@ == rest.skip(rest.len() - tail@.len()),
            decreases tail@.len(),
        {
            let ghost k = rest.len() - tail@.len();
            assert(tail@[0] == rest[k]);
            match tail.pop_front() {
                Some(line) => {
                    out.push(Emission::Line(line));
                },
                None => {},
            }
            assert(rest.take(k + 1) =~= rest.take(k).push(rest[k]));
            assert(tail@ =~= rest.skip(k + 1));
            assert(out@ =~= start + as_emissions(rest.take(rest.len() - tail@.len())));
        }
        assert(rest.take(rest.len() as int) =~= rest);
        out
    }
}

/// What is shown live is every line when truncation is off, else the
/// retained head.
proof fn lemma_shown_live(n: nat, ls: Seq<OutputLine>)
    ensures
        shown_live(n, ls) == as_emissions(if n == 0 { ls } else { kept_head(n, ls) }),
    decreases ls.len(),
{
    if ls.len() > 0 {
        let prev = ls.drop_last();
        lemma_shown_live(n, prev);
        if n == 0 || prev.len() < head_limit(n) {
            assert(as_emissions(ls) =~= as_emissions(prev).push(Emission::Line(ls.last())));
            if n > 0 {
                assert(kept_head(n, ls) =~= kept_head(n, prev).push(ls.last()));
                assert(as_emissions(kept_head(n, ls)) =~= as_emissions(kept_head(n, prev)).push(
                    Emission::Line(ls.last()),
                ));
            }
        } else {
            assert(kept_head(n, ls) =~= kept_head(n, prev));
        }
    }
    assert(shown_live(n, ls) =~= as_emissions(if n == 0 { ls } else { kept_head(n, ls) }));
}

/// Pushing the lines `ls` one by one into an empty buffer of capacity `n`,
/// then finishing it, prints exactly `rendered(n, ls)`: everything in
/// arrival order when the lines fit, else the earliest `n / 2` lines, one
/// marker counting the `ls.len() - n` lines left out, and the most recent
/// `n - n / 2` lines in their original order.
pub proof fn lemma_rendering(n: nat, ls: Seq<OutputLine>)
    ensures
        shown_live(n, ls) + flushed(n, ls) == rendered(n, ls),
{
    lemma_shown_live(n, ls);
    let h = head_limit(n);
    if n == 0 {
        assert(shown_live(n, ls) + flushed(n, ls) =~= rendered(n, ls));
    } else if ls.len() <= h {
        assert(shown_live(n, ls) + flushed(n, ls) =~= rendered(n, ls));
    } else if ls.len() <= n {
        assert(ls =~= ls.take(h as int) + ls.skip(h as int));
        assert(as_emissions(ls) =~= as_emissions(ls.take(h as int)) + as_emissions(
            ls.skip(h as int),
        ));
        assert(shown_live(n, ls) + flushed(n, ls) =~= rendered(n, ls));
    } else {
        assert(shown_live(n, ls) + flushed(n, ls) =~= rendered(n, ls));
    }
}

/// With a positive capacity `n`, a build of at most `n` lines is printed
/// whole in arrival order with no marker; a longer one is printed as its
/// first `n / 2` lines, a marker counting exactly `ls.len() - n` omitted
/// lines, and its last `n / 2` lines in order. The second half is stated
/// for an even capacity: with an odd one the withheld tail is the larger
/// half.
pub proof fn lemma_truncation_shape(n: nat, ls: Seq<OutputLine>)
    requires
        n > 0,
        ls.len() <= n || n % 2 == 0,
    ensures
        ls.len() <= n ==> shown_live(n, ls) + flushed(n, ls) == as_emissions(ls),
        ls.len() > n ==> shown_live(n, ls) + flushed(n, ls) == as_emissions(ls.take((n / 2) as int))
            + seq![Emission::Truncated((ls.len() - n) as usize)] + as_emissions(
            ls.skip(ls.len() - (n / 2) as int),
        ),
{
    lemma_rendering(n, ls);
}

/// With capacity zero, every push shows its line at once, so everything is
/// printed in arrival order, and the flush prints nothing: no marker, for
/// any number of lines.
pub proof fn lemma_no_truncation(ls: Seq<OutputLine>, line: OutputLine)
    ensures
        shown_on_push(0, ls, line) == Some(line),
        shown_live(0, ls) == as_emissions(ls),
        flushed(0, ls) == Seq::<Emission>::empty(),
{
    lemma_shown_live(0, ls);
}

} // verus!
