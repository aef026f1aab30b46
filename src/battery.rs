//! Battery sensor logic: reading the kernel's status and charge texts, the
//! charge level as a coloured symbol and a percentage, and the estimate of
//! the time left until empty or full, smoothed and re-seeded whenever the
//! charging status changes.
use vstd::prelude::*;
use crate::block::{Block, block_json};
use crate::ema::{Ema, push_result};
use crate::text::{
    decimal, decimal_string, digits_value, is_decimal, minutes_text, minutes_to_string, parse_counter,
    percent, percent_of, same_text, trim_str, trimmed,
};

verus! {

/// The charging status that the kernel reports.
#[derive(Clone, Copy, Debug, PartialEq, Eq, Structural)]
pub enum Status {
    Charging,
    Discharging,
    Full,
    NotCharging,
    Unknown,
}

/// A change reported by one of the battery's files.
#[derive(Clone, Copy, Debug, PartialEq, Eq, Structural)]
pub enum BatteryEvent {
    Charge(u64),
    Status(Status),
}

/// The kernel's name of each status.
pub open spec fn status_text(s: Status) -> Seq<char> {
    match s {
        Status::Charging => "Charging"@,
        Status::Discharging => "Discharging"@,
        Status::Full => "Full"@,
        Status::NotCharging => "Not charging"@,
        Status::Unknown => "Unknown"@,
    }
}

/// The status whose kernel name is exactly `t`.
pub fn status_from_text(t: &str) -> (r: Option<Status>)
    ensures
        r matches Some(s) ==> status_text(s) == t@,
        r is None ==> forall|s: Status| status_text(s) != t@,
{
    if same_text(t, "Charging") {
        Some(Status::Charging)
    } else if same_text(t, "Discharging") {
        Some(Status::Discharging)
    } else if same_text(t, "Full") {
        Some(Status::Full)
    } else if same_text(t, "Not charging") {
        Some(Status::NotCharging)
    } else if same_text(t, "Unknown") {
        Some(Status::Unknown)
    } else {
        None
    }
}

/// Reads the contents of a status file, ignoring surrounding whitespace.
pub fn str_to_status(s: &str) -> (r: Result<BatteryEvent, String>)
    ensures
        r matches Ok(e) ==> (e matches BatteryEvent::Status(st) && status_text(st) == trimmed(s@)),
        r is Err <==> forall|st: Status| status_text(st) != trimmed(s@),
        r matches Err(m) ==> m@ == "Unknown status "@ + trimmed(s@),
{
    let t = trim_str(s);
    match status_from_text(t) {
        Some(st) => Ok(BatteryEvent::Status(st)),
        None => {
            let mut m = String::from_str("Unknown status ");
            m.append(t);
            Err(m)
        },
    }
}

/// Reads the contents of a charge file, ignoring surrounding whitespace.
pub fn str_to_charge(s: &str) -> (r: Result<BatteryEvent, String>)
    ensures
        r is Ok <==> is_decimal(trimmed(s@)) && digits_value(trimmed(s@)) <= u64::MAX,
        r matches Ok(e) ==> e == BatteryEvent::Charge(digits_value(trimmed(s@)) as u64),
        r matches Err(m) ==> m@ == "Unexpected value for charge '"@ + s@ + "'"@,
{
    match parse_counter(s) {
        Some(v) => Ok(BatteryEvent::Charge(v)),
        None => {
            let mut m = String::from_str("Unexpected value for charge '");
            m.append(s);
            m.append("'");
            Err(m)
        },
    }
}

/// The charge level as a fraction `p / q` of full: `charge / max`, capped at
/// one, and one where no maximum is known.
pub open spec fn fill(charge: nat, max: nat) -> (nat, nat) {
    if max == 0 || charge >= max {
        (1, 1)
    } else {
        (charge, max)
    }
}

/// A lowercase hexadecimal digit.
pub open spec fn hex_digit(d: nat) -> Seq<char> {
    if d < 10 {
        crate::text::digit_text(d)
    } else if d == 10 {
        "a"@
    } else if d == 11 {
        "b"@
    } else if d == 12 {
        "c"@
    } else if d == 13 {
        "d"@
    } else if d == 14 {
        "e"@
    } else {
        "f"@
    }
}

/// A byte as two lowercase hexadecimal digits.
pub open spec fn hex2(v: nat) -> Seq<char> {
    hex_digit(v / 16) + hex_digit(v % 16)
}

/// The colour of a charge level `p / q`: from red at empty through yellow
/// at half to green at full.
pub open spec fn colour_of(p: nat, q: nat) -> Seq<char>
    recommends
        q > 0,
{
    let scaled = 510 * p / q;
    if 2 * p > q {
        hex2((510 - scaled) as nat) + "ff00"@
    } else {
        "ff"@ + hex2(scaled) + "00"@
    }
}

/// `s` in a Pango span coloured by the charge level.
pub open spec fn coloured(s: Seq<char>, charge: nat, max: nat) -> Seq<char> {
    let (p, q) = fill(charge, max);
    "<span foreground='#"@ + colour_of(p, q) + "'>"@ + s + "</span>"@
}

/// The battery symbol of a discharging battery at charge level `p / q`.
pub open spec fn discharge_symbol(p: nat, q: nat) -> Seq<char> {
    if 10 * p > 9 * q {
        "\u{f240} "@
    } else if 10 * p > 6 * q {
        "\u{f241} "@
    } else if 10 * p > 4 * q {
        "\u{f242} "@
    } else if 10 * p > q {
        "\u{f243} "@
    } else {
        "\u{f244} "@
    }
}

/// The coloured symbol of a status and charge.
pub open spec fn symbol_of(status: Status, charge: nat, max: nat) -> Seq<char> {
    let (p, q) = fill(charge, max);
    coloured(
        if status == Status::Discharging {
            discharge_symbol(p, q)
        } else {
            "\u{f5e7} "@
        },
        charge,
        max,
    )
}

/// The text of the battery's segment: symbol, percentage and what is left.
pub open spec fn full_text_of(status: Status, charge: nat, max: nat, remaining: Seq<char>) -> Seq<
    char,
> {
    let (p, q) = fill(charge, max);
    symbol_of(status, charge, max) + " "@ + decimal(percent(p, q)) + "% ("@ + remaining + ")"@
}

fn fill_exec(charge: u64, max: u64) -> (r: (u64, u64))
    ensures
        (r.0 as nat, r.1 as nat) == fill(charge as nat, max as nat),
        r.1 > 0,
        r.0 <= r.1,
{
    if max == 0 || charge >= max {
        (1, 1)
    } else {
        (charge, max)
    }
}

fn hex_digit_str(d: u64) -> (r: &'static str)
    requires
        d < 16,
    ensures
        r@ == hex_digit(d as nat),
{
    if d < 10 {
        crate::text::digit_str(d)
    } else if d == 10 {
        "a"
    } else if d == 11 {
        "b"
    } else if d == 12 {
        "c"
    } else if d == 13 {
        "d"
    } else if d == 14 {
        "e"
    } else {
        "f"
    }
}

fn append_hex2(out: &mut String, v: u64)
    requires
        v < 256,
    ensures
        final(out)@ == old(out)@ + hex2(v as nat),
{
    out.append(hex_digit_str(v / 16));
    out.append(hex_digit_str(v % 16));
}

/// Wraps `s` in a Pango span whose colour shows the charge level
/// `charge / max`, capped at full.
pub fn wrap_in_colour(s: &str, charge: u64, max: u64) -> (r: String)
    ensures
        r@ == coloured(s@, charge as nat, max as nat),
{
    let (p, q) = fill_exec(charge, max);
    let scaled: u128 = 510 * (p as u128) / (q as u128);
    proof {
        assert(510 * (p as int) / (q as int) <= 510) by (nonlinear_arith)
            requires p <= q, q > 0;
    }
    let mut out = String::from_str("<span foreground='#");
    if 2 * (p as u128) > q as u128 {
        proof {
            assert(510 * (p as int) / (q as int) >= 255) by (nonlinear_arith)
                requires 2 * p > q, q > 0;
        }
        append_hex2(&mut out, (510 - scaled) as u64);
        out.append("ff00");
    } else {
        proof {
            assert(510 * (p as int) / (q as int) <= 255) by (nonlinear_arith)
                requires 2 * p <= q, q > 0;
        }
        out.append("ff");
        append_hex2(&mut out, scaled as u64);
        out.append("00");
    }
    out.append("'>");
    out.append(s);
    out.append("</span>");
    out
}

fn discharge_symbol_str(p: u64, q: u64) -> (r: &'static str)
    ensures
        r@ == discharge_symbol(p as nat, q as nat),
{
    let (p, q) = (p as u128, q as u128);
    if 10 * p > 9 * q {
        "\u{f240} "
    } else if 10 * p > 6 * q {
        "\u{f241} "
    } else if 10 * p > 4 * q {
        "\u{f242} "
    } else if 10 * p > q {
        "\u{f243} "
    } else {
        "\u{f244} "
    }
}

/// The coloured symbol for a status and charge.
pub fn get_symbol(status: Status, charge: u64, max: u64) -> (r: String)
    ensures
        r@ == symbol_of(status, charge as nat, max as nat),
{
    let (p, q) = fill_exec(charge, max);
    let s = if status == Status::Discharging {
        discharge_symbol_str(p, q)
    } else {
        "\u{f5e7} "
    };
    wrap_in_colour(s, charge, max)
}

/// The segment text: coloured symbol, rounded percentage and, in
/// parentheses, the time left or another note.
pub fn create_full_text(status: Status, charge: u64, max: u64, remaining: &str) -> (r: String)
    ensures
        r@ == full_text_of(status, charge as nat, max as nat, remaining@),
{
    let (p, q) = fill_exec(charge, max);
    let mut out = get_symbol(status, charge, max);
    out.append(" ");
    let pc = decimal_string(percent_of(p, q));
    out.append(pc.as_str());
    out.append("% (");
    out.append(remaining);
    out.append(")");
    out
}

/// What is still to go, in charge units: up to full while charging, down to
/// empty otherwise, nothing once full.
pub open spec fn gap_of(status: Status, charge: nat, max: nat) -> nat {
    match status {
        Status::Charging => if max > charge {
            (max - charge) as nat
        } else {
            0
        },
        Status::Full => 0,
        _ => charge,
    }
}

/// Seconds from `since` to `now`, zero if `now` is earlier.
pub open spec fn elapsed(since: nat, now: nat) -> nat {
    if now >= since {
        (now - since) as nat
    } else {
        0
    }
}

/// Seconds needed to cover `gap` at the rate of `delta` charge units in
/// `secs` seconds, capped at `u64::MAX`.
pub open spec fn estimate(gap: nat, secs: nat, delta: nat) -> nat
    recommends
        delta > 0,
{
    let e = gap * secs / delta;
    if e > u64::MAX {
        u64::MAX as nat
    } else {
        e
    }
}

/// The note shown after the percentage: `Full` for a full battery, and
/// otherwise `other`.
pub open spec fn note_for(status: Status, other: Seq<char>) -> Seq<char> {
    if status == Status::Full {
        "Full"@
    } else {
        other
    }
}

/// `after` is `before` with its full text set to `text`.
pub open spec fn with_full_text(before: Block, after: Block, text: Seq<char>) -> bool {
    &&& after.name == before.name
    &&& after.background == before.background
    &&& after.colour == before.colour
    &&& after.markup == before.markup
    &&& after.separator == before.separator
    &&& after.separator_block_width == before.separator_block_width
    &&& match after.full_text {
        Some(t) => t@ == text,
        None => false,
    }
}

/// The battery sensor between readings: the latest charge and status, when
/// the charge was read, and the smoothed estimate of the time left.
pub struct BatteryState {
    block: Block,
    max: u64,
    charge: u64,
    status: Status,
    since: u64,
    seen: bool,
    remaining: Ema,
    note: String,
}

impl BatteryState {
    pub closed spec fn block(&self) -> Block {
        self.block
    }

    /// The charge of a full battery.
    pub closed spec fn max(&self) -> nat {
        self.max as nat
    }

    /// The latest charge read.
    pub closed spec fn charge(&self) -> nat {
        self.charge as nat
    }

    pub closed spec fn status(&self) -> Status {
        self.status
    }

    /// When the latest charge was read, in seconds.
    pub closed spec fn since(&self) -> nat {
        self.since as nat
    }

    /// Whether a charge has been read since the status last changed.
    pub closed spec fn seen(&self) -> bool {
        self.seen
    }

    /// The filter that smooths the estimates, in seconds.
    pub closed spec fn smoother(&self) -> Ema {
        self.remaining
    }

    /// The note shown after the percentage.
    pub closed spec fn note(&self) -> Seq<char> {
        self.note@
    }

    pub open spec fn wf(&self) -> bool {
        self.smoother().wf()
    }

    /// The state right after the first readings: `charge` and `status`, read
    /// at second `now`, against a full charge of `max`; estimates are
    /// smoothed with weight `alpha_num / alpha_den` on history.
    pub fn new(
        name: String,
        alpha_num: u64,
        alpha_den: u64,
        max: u64,
        charge: u64,
        status: Status,
        now: u64,
    ) -> (r: BatteryState)
        requires
            0 < alpha_num <= alpha_den,
        ensures
            r.wf(),
            r.block().name@ == name@,
            r.block().full_text is None,
            r.block().markup matches Some(m) && m@ == "pango"@,
            r.block().background is None,
            r.block().colour is None,
            r.block().separator is None,
            r.block().separator_block_width == Some(18usize),
            r.max() == max,
            r.charge() == charge,
            r.status() == status,
            r.since() == now,
            !r.seen(),
            r.smoother().current() is None,
            r.smoother().num() == alpha_num,
            r.smoother().den() == alpha_den,
            r.note() == "..."@,
    {
        BatteryState {
            block: Block::new(name, true),
            max,
            charge,
            status,
            since: now,
            seen: false,
            remaining: Ema::new(alpha_num, alpha_den),
            note: String::from_str("..."),
        }
    }

    /// Sets the segment's text from the state and returns the segment.
    fn publish(&mut self) -> (r: String)
        ensures
            with_full_text(
                old(self).block(),
                final(self).block(),
                full_text_of(old(self).status(), old(self).charge(), old(self).max(), old(self).note()),
            ),
            r@ == block_json(final(self).block()),
            final(self).max() == old(self).max(),
            final(self).charge() == old(self).charge(),
            final(self).status() == old(self).status(),
            final(self).since() == old(self).since(),
            final(self).seen() == old(self).seen(),
            final(self).smoother() == old(self).smoother(),
            final(self).note() == old(self).note(),
    {
        let text = create_full_text(self.status, self.charge, self.max, self.note.as_str());
        self.block.full_text = Some(text);
        self.block.to_string()
    }

    /// The segment to show at start: one only where the battery is full.
    pub fn initial_message(&mut self) -> (r: Option<String>)
        ensures
            old(self).status() != Status::Full ==> r is None && *final(self) == *old(self),
            old(self).status() == Status::Full ==> (r matches Some(t) && t@ == block_json(
                final(self).block(),
            ) && with_full_text(
                old(self).block(),
                final(self).block(),
                full_text_of(old(self).status(), old(self).charge(), old(self).max(), "Full"@),
            )),
            final(self).max() == old(self).max(),
            final(self).charge() == old(self).charge(),
            final(self).status() == old(self).status(),
            final(self).since() == old(self).since(),
            final(self).seen() == old(self).seen(),
            final(self).smoother() == old(self).smoother(),
            final(self).note() == old(self).note(),
    {
        if self.status == Status::Full {
            let text = create_full_text(self.status, self.charge, self.max, "Full");
            self.block.full_text = Some(text);
            Some(self.block.to_string())
        } else {
            None
        }
    }

    /// Takes one reading, made at second `now`, and returns the segment to
    /// show, or nothing where a charge reading brings no change.
    ///
    /// A charge reading right after a status change re-seeds the estimate,
    /// which is unknown (`...`) until the next change of charge; a later
    /// one estimates the time left from the rate of change since the
    /// previous reading, smooths it and shows it as hours and minutes. A
    /// new status clears the estimate. A full battery shows `Full`.
    pub fn on_event(&mut self, event: BatteryEvent, now: u64) -> (r: Option<String>)
        requires
            old(self).wf(),
        ensures
            final(self).wf(),
            final(self).max() == old(self).max(),
            final(self).smoother().num() == old(self).smoother().num(),
            final(self).smoother().den() == old(self).smoother().den(),
            r matches Some(t) ==> t@ == block_json(final(self).block()) && with_full_text(
                old(self).block(),
                final(self).block(),
                full_text_of(
                    final(self).status(),
                    final(self).charge(),
                    final(self).max(),
                    final(self).note(),
                ),
            ),
            match event {
                BatteryEvent::Charge(c) => if old(self).seen() && c == old(self).charge() {
                    r is None && *final(self) == *old(self)
                } else {
                    &&& r is Some
                    &&& final(self).charge() == c
                    &&& final(self).since() == now
                    &&& final(self).seen()
                    &&& final(self).status() == old(self).status()
                    &&& !old(self).seen() ==> final(self).smoother().current() is None
                        && final(self).note() == note_for(old(self).status(), "..."@)
                    &&& old(self).seen() ==> {
                        let delta = if c > old(self).charge() {
                            c - old(self).charge()
                        } else {
                            old(self).charge() - c
                        };
                        let out = push_result(
                            old(self).smoother().num(),
                            old(self).smoother().den(),
                            old(self).smoother().current(),
                            estimate(
                                gap_of(old(self).status(), c as nat, old(self).max()),
                                elapsed(old(self).since(), now as nat),
                                delta as nat,
                            ) as u64,
                        );
                        &&& final(self).smoother().current() == Some(out as u64)
                        &&& final(self).note() == note_for(
                            old(self).status(),
                            minutes_text(out, 60),
                        )
                    }
                },
                BatteryEvent::Status(s) => {
                    &&& r is Some
                    &&& final(self).status() == s
                    &&& final(self).charge() == old(self).charge()
                    &&& final(self).since() == old(self).since()
                    &&& final(self).smoother() == old(self).smoother()
                    &&& s != old(self).status() ==> !final(self).seen() && final(self).note()
                        == note_for(s, "..."@)
                    &&& s == old(self).status() ==> final(self).seen() == old(self).seen()
                        && final(self).note() == note_for(s, old(self).note())
                },
            },
    {
        match event {
            BatteryEvent::Charge(c) => {
                if !self.seen {
                    self.remaining.reset();
                    self.note = String::from_str("...");
                } else {
                    if c == self.charge {
                        return None;
                    }
                    let gap: u64 = match self.status {
                        Status::Charging => if self.max > c {
                            self.max - c
                        } else {
                            0
                        },
                        Status::Full => 0,
                        _ => c,
                    };
                    let secs: u64 = if now >= self.since {
                        now - self.since
                    } else {
                        0
                    };
                    let delta: u64 = if c > self.charge {
                        c - self.charge
                    } else {
                        self.charge - c
                    };
                    proof {
                        assert((gap as int) * (secs as int) <= (u64::MAX as int) * (u64::MAX as int))
                            by (nonlinear_arith)
                            requires gap <= u64::MAX, secs <= u64::MAX;
                    }
                    let wide: u128 = (gap as u128) * (secs as u128) / (delta as u128);
                    let est: u64 = if wide > u64::MAX as u128 {
                        u64::MAX
                    } else {
                        wide as u64
                    };
                    let out = self.remaining.push(est);
                    self.note = minutes_to_string(out, 60);
                }
                self.since = now;
                self.charge = c;
                self.seen = true;
            },
            BatteryEvent::Status(s) => {
                if s != self.status {
                    self.seen = false;
                    self.status = s;
                    self.note = String::from_str("...");
                }
            },
        }
        if self.status == Status::Full {
            self.note = String::from_str("Full");
        }
        Some(self.publish())
    }
}

} // verus!
