//! CPU and memory usage from the kernel's counters, as shares in hundredths
//! of a percent, network throughput from byte counters, and the volume and
//! brightness segments.
use vstd::prelude::*;
use crate::text::{
    append_one_decimal, decimal, decimal_string, one_decimal, parse_counter, percent, percent_of,
    same_text,
};

verus! {

/// The sum of a list of counters.
pub open spec fn sum(s: Seq<u64>) -> nat
    decreases s.len(),
{
    if s.len() == 0 {
        0
    } else {
        sum(s.drop_last()) + s.last() as nat
    }
}

/// `10000 * part / whole` rounded half up, zero where `whole` is zero.
pub open spec fn share(part: nat, whole: nat) -> nat {
    if whole == 0 {
        0
    } else {
        (20000 * part + whole) / (2 * whole)
    }
}

/// Idle and total time of the CPU, in the kernel's ticks.
#[derive(Clone, Copy, Debug, PartialEq, Eq, Structural)]
pub struct Usage {
    pub idle: u64,
    pub total: u64,
}

proof fn lemma_sum_grows(s: Seq<u64>, i: int, j: int)
    requires
        0 <= i <= j <= s.len(),
    ensures
        sum(s.take(i)) <= sum(s.take(j)),
    decreases j - i,
{
    if i < j {
        lemma_sum_grows(s, i, j - 1);
        assert(s.take(j).drop_last() =~= s.take(j - 1));
    }
}

proof fn lemma_idle_in_sum(s: Seq<u64>)
    requires
        s.len() >= 5,
    ensures
        s[3] as nat + s[4] as nat <= sum(s),
{
    lemma_sum_grows(s, 5, s.len() as int);
    assert(s.take(s.len() as int) =~= s);
    assert(s.take(5).drop_last() =~= s.take(4));
    assert(s.take(4).drop_last() =~= s.take(3));
    assert(sum(s.take(5)) == sum(s.take(4)) + s[4] as nat);
    assert(sum(s.take(4)) == sum(s.take(3)) + s[3] as nat);
}

/// Usage from the counters of the `cpu` line of `/proc/stat` (user, nice,
/// system, idle, iowait, ...): idle time is idle plus iowait, total time the
/// sum of all of them; nothing where the total does not fit in a `u64`.
pub fn calc_cpu(stats: &Vec<u64>) -> (r: Option<Usage>)
    requires
        stats.len() >= 5,
    ensures
        r is Some <==> sum(stats@) <= u64::MAX,
        r matches Some(u) ==> u.idle == stats[3] as nat + stats[4] as nat && u.total == sum(
            stats@,
        ),
{
    let mut total: u64 = 0;
    let mut i: usize = 0;
    while i < stats.len()
        invariant
            i <= stats.len(),
            total == sum(stats@.take(i as int)),
        decreases stats.len() - i,
    {
        assert(stats@.take(i + 1).drop_last() =~= stats@.take(i as int));
        if total > u64::MAX - stats[i] {
            proof {
                lemma_sum_grows(stats@, i + 1, stats.len() as int);
                assert(stats@.take(stats.len() as int) =~= stats@);
            }
            return None;
        }
        total = total + stats[i];
        i = i + 1;
    }
    assert(stats@.take(stats.len() as int) =~= stats@);
    proof {
        lemma_idle_in_sum(stats@);
    }
    Some(Usage { idle: stats[3] + stats[4], total })
}

/// The busy share of the CPU between two readings: the share of the ticks
/// that passed which were not idle. Idle counts that went backwards count as
/// none, and where no ticks passed the share is zero.
pub open spec fn busy_share(cpu: Usage, prev: Usage) -> nat {
    if cpu.total <= prev.total {
        0
    } else {
        let dt = (cpu.total - prev.total) as nat;
        let di = if cpu.idle >= prev.idle {
            (cpu.idle - prev.idle) as nat
        } else {
            0
        };
        let busy = if di >= dt {
            0
        } else {
            (dt - di) as nat
        };
        share(busy, dt)
    }
}

fn share_exec(part: u64, whole: u64) -> (r: u64)
    requires
        part <= whole,
    ensures
        r == share(part as nat, whole as nat),
        r <= 10000,
{
    if whole == 0 {
        return 0;
    }
    let p = part as u128;
    let w = whole as u128;
    proof {
        assert((20000 * (p as int) + (w as int)) / (2 * (w as int)) <= 10000) by (nonlinear_arith)
            requires p <= w, w > 0;
    }
    ((20000 * p + w) / (2 * w)) as u64
}

/// The busy share of the CPU between two readings, in hundredths of a
/// percent.
pub fn calc_dcpu(cpu: &Usage, prev: &Usage) -> (r: u64)
    ensures
        r == busy_share(*cpu, *prev),
{
    if cpu.total <= prev.total {
        return 0;
    }
    let dt: u64 = cpu.total - prev.total;
    let di: u64 = if cpu.idle >= prev.idle {
        cpu.idle - prev.idle
    } else {
        0
    };
    let busy: u64 = if di >= dt {
        0
    } else {
        dt - di
    };
    share_exec(busy, dt)
}

/// The share of memory in use, in hundredths of a percent, from the total
/// and the free memory; free memory beyond the total counts as all of it.
pub fn get_mem_percentage(total: u64, free: u64) -> (r: u64)
    ensures
        r == share(if free >= total { 0 } else { (total - free) as nat }, total as nat),
{
    let used: u64 = if free >= total {
        0
    } else {
        total - free
    };
    share_exec(used, total)
}

/// Bytes per period as tenths of a kB (1024 bytes) per second, rounded half
/// up and capped at `u64::MAX`; a counter that went backwards counts as no
/// traffic.
pub open spec fn rate_tenths(curr: nat, prev: nat, period_ms: nat) -> nat
    recommends
        period_ms > 0,
{
    let delta: nat = if curr >= prev {
        (curr - prev) as nat
    } else {
        0
    };
    let d = 1024 * period_ms;
    let r = (20000 * delta + d) / (2 * d);
    if r > u64::MAX {
        u64::MAX as nat
    } else {
        r
    }
}

/// The latest two readings of a byte counter read once per period.
pub struct Speed {
    curr: u64,
    prev: u64,
    period_ms: u64,
}

impl Speed {
    pub closed spec fn curr(&self) -> nat {
        self.curr as nat
    }

    pub closed spec fn prev(&self) -> nat {
        self.prev as nat
    }

    /// The period of the readings, in milliseconds.
    pub closed spec fn period(&self) -> nat {
        self.period_ms as nat
    }

    /// A counter read every `period_ms` milliseconds, with both readings zero.
    pub fn new(period_ms: u64) -> (r: Speed)
        requires
            period_ms > 0,
        ensures
            r.curr() == 0,
            r.prev() == 0,
            r.period() == period_ms,
    {
        Speed { curr: 0, prev: 0, period_ms }
    }

    /// Records a new reading; the latest one becomes the previous one.
    pub fn push(&mut self, new: u64)
        ensures
            final(self).curr() == new,
            final(self).prev() == old(self).curr(),
            final(self).period() == old(self).period(),
    {
        self.prev = self.curr;
        self.curr = new;
    }

    /// The rate between the two readings, in tenths of a kB per second.
    pub fn calc_speed(&self) -> (r: u64)
        requires
            self.period() > 0,
        ensures
            r == rate_tenths(self.curr(), self.prev(), self.period()),
    {
        let delta: u128 = if self.curr >= self.prev {
            (self.curr - self.prev) as u128
        } else {
            0
        };
        let d: u128 = 1024 * (self.period_ms as u128);
        let r: u128 = (20000 * delta + d) / (2 * d);
        if r > u64::MAX as u128 {
            u64::MAX
        } else {
            r as u64
        }
    }
}

/// The network segment: received and sent rates, in tenths of a kB per
/// second, each in its own colour and with its arrow.
pub open spec fn network_text_of(rx: nat, tx: nat) -> Seq<char> {
    "<span foreground='#ccffcc'>\u{f0ab} "@ + one_decimal(rx) + "</span> <span foreground='#ffcccc'>\u{f0aa} "@
        + one_decimal(tx) + "</span>"@
}

/// Writes the network segment from the received and sent rates, in tenths
/// of a kB per second.
pub fn network_text(rx: u64, tx: u64) -> (r: String)
    ensures
        r@ == network_text_of(rx as nat, tx as nat),
{
    let mut s = String::from_str("<span foreground='#ccffcc'>\u{f0ab} ");
    append_one_decimal(&mut s, rx);
    s.append("</span> <span foreground='#ffcccc'>\u{f0aa} ");
    append_one_decimal(&mut s, tx);
    s.append("</span>");
    s
}

/// The volume segment from the mute flag and volume that the mixer printed:
/// the volume with a speaker icon where not muted, the muted icon otherwise,
/// and the mixer's output as it is where it did not hold them.
pub open spec fn volume_text_of(levels: Option<(String, String)>, output: Seq<char>) -> Seq<char> {
    match levels {
        Some((mute, volume)) => if mute@ == "0"@ {
            "\u{f028} "@ + volume@ + "%"@
        } else {
            "\u{f026}"@
        },
        None => output,
    }
}

/// Writes the volume segment from the mute flag and volume found in the
/// mixer's `output`, if they were found.
pub fn volume_text(levels: Option<(String, String)>, output: String) -> (r: String)
    ensures
        r@ == volume_text_of(levels, output@),
{
    match levels {
        Some((mute, volume)) => if same_text(mute.as_str(), "0") {
            let mut s = String::from_str("\u{f028} ");
            s.append(volume.as_str());
            s.append("%");
            s
        } else {
            String::from_str("\u{f026}")
        },
        None => output,
    }
}

/// The brightness segment: the brightness read, as a whole percentage of
/// `max` after a sun icon, or the text as it is where it is no counter.
pub open spec fn brightness_text_of(output: Seq<char>, max: nat) -> Seq<char> {
    match crate::text::counter_value(output) {
        Some(n) => "\u{f042} "@ + decimal(percent(n, max)) + "%"@,
        None => output,
    }
}

/// Writes the brightness segment from the text read and the maximum
/// brightness.
pub fn brightness_text(output: String, max: u64) -> (r: String)
    requires
        max > 0,
    ensures
        r@ == brightness_text_of(output@, max as nat),
{
    match parse_counter(output.as_str()) {
        Some(n) => {
            let mut s = String::from_str("\u{f042} ");
            let pc = decimal_string(percent_of(n, max));
            s.append(pc.as_str());
            s.append("%");
            s
        },
        None => output,
    }
}

} // verus!
