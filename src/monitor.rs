//! Periodic monitors: the tick schedule of a read source, the placeholder
//! text for a failed read, and the filter that decides which readings a
//! sensor passes on.
use vstd::prelude::*;

verus! {

/// What the `Debug` format of a `str` writes: the text in double quotes,
/// with escapes.
pub uninterp spec fn debug_quoted(s: Seq<char>) -> Seq<char>;

/// Relies on the `Debug` impl of `str` (`{:?}`): the result depends on the
/// text alone.
#[verifier::external_body]
fn debug_string(s: &str) -> (r: String)
    ensures
        r@ == debug_quoted(s@),
{
    format!("{:?}", s)
}

/// Where a monitor's text comes from.
pub enum ReadSource {
    /// The contents of the file at this path.
    File(String),
    /// The standard output of this program, run with these arguments.
    Command(String, Vec<String>),
}

/// The placeholder that a failed read of `source` yields.
pub open spec fn failure_text(source: ReadSource) -> Seq<char> {
    match source {
        ReadSource::File(path) => "Failed to read: "@ + path@,
        ReadSource::Command(program, _) => "Command failed: '"@ + debug_quoted(program@) + "'"@,
    }
}

/// The text of one tick: what was read, or the placeholder where the read
/// failed.
pub open spec fn reading_text(source: ReadSource, outcome: Option<String>) -> Seq<char> {
    match outcome {
        Some(t) => t@,
        None => failure_text(source),
    }
}

/// How long to wait before the next read: nothing before the first one,
/// the period before each later one.
pub open spec fn wait_before(fresh: bool, period: nat) -> nat {
    if fresh {
        0
    } else {
        period
    }
}

/// The waits of `n` ticks in turn, from a monitor that is fresh or not.
pub open spec fn waits(fresh: bool, period: nat, n: nat) -> Seq<nat>
    decreases n,
{
    if n == 0 {
        Seq::empty()
    } else {
        seq![wait_before(fresh, period)] + waits(false, period, (n - 1) as nat)
    }
}

pub open spec fn total(s: Seq<nat>) -> nat
    decreases s.len(),
{
    if s.len() == 0 {
        0
    } else {
        s[0] + total(s.drop_first())
    }
}

/// A read source polled with a fixed period, in milliseconds.
pub struct Monitor {
    source: ReadSource,
    period_ms: u64,
    first: bool,
    last: String,
}

impl Monitor {
    pub closed spec fn source(&self) -> ReadSource {
        self.source
    }

    /// The period in milliseconds.
    pub closed spec fn period(&self) -> nat {
        self.period_ms as nat
    }

    /// True until the first tick has been taken.
    pub closed spec fn fresh(&self) -> bool {
        self.first
    }

    /// The text of the latest read.
    pub closed spec fn last(&self) -> Seq<char> {
        self.last@
    }

    /// A monitor of `source` that has not ticked yet.
    pub fn new(source: ReadSource, period_ms: u64) -> (r: Monitor)
        ensures
            r.source() == source,
            r.period() == period_ms,
            r.fresh(),
            r.last() == Seq::<char>::empty(),
    {
        Monitor { source, period_ms, first: true, last: String::new() }
    }

    /// Takes a tick: the milliseconds to wait before its read, zero for the
    /// first tick and the period for each later one.
    pub fn next_wait(&mut self) -> (r: u64)
        ensures
            r == wait_before(old(self).fresh(), old(self).period()),
            !final(self).fresh(),
            final(self).source() == old(self).source(),
            final(self).period() == old(self).period(),
            final(self).last() == old(self).last(),
    {
        if self.first {
            self.first = false;
            0
        } else {
            self.period_ms
        }
    }

    /// Records the outcome of a read, made now without waiting, and returns
    /// its text: what was read, or a placeholder naming the source where the
    /// read failed. A failure never ends the monitor.
    pub fn read(&mut self, outcome: Option<String>) -> (r: String)
        ensures
            r@ == reading_text(old(self).source(), outcome),
            final(self).last() == r@,
            final(self).fresh() == old(self).fresh(),
            final(self).source() == old(self).source(),
            final(self).period() == old(self).period(),
    {
        let text = match outcome {
            Some(t) => t,
            None => match &self.source {
                ReadSource::File(path) => {
                    let mut s = String::from_str("Failed to read: ");
                    s.append(path.as_str());
                    s
                },
                ReadSource::Command(program, _) => {
                    let mut s = String::from_str("Command failed: '");
                    let quoted = debug_string(program.as_str());
                    s.append(quoted.as_str());
                    s.append("'");
                    s
                },
            },
        };
        self.last = text.clone();
        text
    }
}

/// A fresh monitor reads its first value without waiting, and the `n`-th
/// read comes after waits that add up to `n - 1` periods.
pub proof fn law_tick_schedule(period: nat, n: nat)
    requires
        n >= 1,
    ensures
        waits(true, period, n).len() == n,
        waits(true, period, n)[0] == 0,
        total(waits(true, period, n)) == (n - 1) * period,
{
    lemma_later_waits(period, (n - 1) as nat);
    assert(waits(true, period, n).drop_first() =~= waits(false, period, (n - 1) as nat));
}

proof fn lemma_later_waits(period: nat, n: nat)
    ensures
        waits(false, period, n).len() == n,
        total(waits(false, period, n)) == n * period,
    decreases n,
{
    if n == 0 {
        assert(total(waits(false, period, n)) == 0);
        assert(n * period == 0) by (nonlinear_arith)
            requires n == 0;
    } else {
        lemma_later_waits(period, (n - 1) as nat);
        let w = waits(false, period, n);
        assert(w[0] == period);
        assert(w.drop_first() =~= waits(false, period, (n - 1) as nat));
        assert(total(w) == w[0] + total(w.drop_first()));
        assert(n * period == period + (n - 1) * period) by (nonlinear_arith)
            requires n >= 1;
    }
}

/// Readings unchanged for longer than this many ticks are passed on again.
pub const FORCE_AFTER: u64 = 10;

/// Decides which readings a sensor passes on: a changed one, or any one once
/// more than `FORCE_AFTER` ticks have gone by since the last one passed on.
pub struct ChangeGate {
    prev: String,
    ticks: u64,
}

impl ChangeGate {
    /// The reading last passed on (at first, the initial one).
    pub closed spec fn prev(&self) -> Seq<char> {
        self.prev@
    }

    /// Ticks counted since a reading was last passed on.
    pub closed spec fn ticks(&self) -> nat {
        self.ticks as nat
    }

    pub open spec fn wf(&self) -> bool {
        self.ticks() <= FORCE_AFTER + 1
    }

    /// A gate that starts from the reading `initial`.
    pub fn new(initial: String) -> (r: ChangeGate)
        ensures
            r.wf(),
            r.prev() == initial@,
            r.ticks() == 0,
    {
        ChangeGate { prev: initial, ticks: 0 }
    }

    /// Takes one reading and tells whether to pass it on.
    pub fn observe(&mut self, contents: String) -> (pass: bool)
        requires
            old(self).wf(),
        ensures
            final(self).wf(),
            pass == (contents@ != old(self).prev() || old(self).ticks() > FORCE_AFTER),
            pass ==> final(self).prev() == contents@ && final(self).ticks() == 1,
            !pass ==> final(self).prev() == old(self).prev() && final(self).ticks() == old(
                self,
            ).ticks() + 1,
    {
        let pass = contents != self.prev || self.ticks > FORCE_AFTER;
        if pass {
            self.prev = contents;
            self.ticks = 0;
        }
        self.ticks = self.ticks + 1;
        pass
    }
}

} // verus!
