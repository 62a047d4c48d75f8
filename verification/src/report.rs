//! The report of the running statistics: the call count shortened with a
//! magnitude suffix, and the table of averages and maxima.

use vstd::prelude::*;
use vstd::string::StringExecFns;
use crate::arith::{div_i64, div_nearest, div_nearest_i64, div_toward_zero};
use crate::stats::{Stats, StatsView};
use crate::text::{
    decimal, digit, digit_char, fixed2, pad_left, pad_right, push_decimal, push_fixed2,
    push_left_aligned, push_right_aligned, push_signed, push_spaces, signed_decimal, spaces,
};

verus! {

/// What clears the display before the table is drawn again.
pub const CLEAR: &'static str = "\x1B[2J\x1B[3J\x1B[H";

/// The line above the table.
pub const BANNER: &'static str =
    "===========================[http://127.0.0.1:3000]============================\n";

/// The upper edge of the table.
pub const TOP_RULE: &'static str =
    "┌─────────────┬───────────────┬───────────────┬───────────────┬───────────────┐\n";

/// The column titles.
pub const TITLES: &'static str =
    "│ TotalCalls  │   CPU %       │   RAM (MB)    │  Disk (MB)    │  Time (ms)    │\n";

/// The rule between the titles and the figures.
pub const MIDDLE_RULE: &'static str =
    "├─────────────┼───────────────┼───────────────┼───────────────┼───────────────┤\n";

/// The lower edge of the table.
pub const BOTTOM_RULE: &'static str =
    "└─────────────┴───────────────┴───────────────┴───────────────┴───────────────┘\n";

/// The `i`-th power of 1000, for `i` up to 6.
pub open spec fn unit(i: nat) -> nat {
    if i == 0 {
        1
    } else if i == 1 {
        1_000
    } else if i == 2 {
        1_000_000
    } else if i == 3 {
        1_000_000_000
    } else if i == 4 {
        1_000_000_000_000
    } else if i == 5 {
        1_000_000_000_000_000
    } else {
        1_000_000_000_000_000_000
    }
}

/// How often `n` can be divided by 1000 while it is at least 1000, six
/// times at most.
pub open spec fn scale(n: nat) -> nat {
    if n < unit(1) {
        0
    } else if n < unit(2) {
        1
    } else if n < unit(3) {
        2
    } else if n < unit(4) {
        3
    } else if n < unit(5) {
        4
    } else if n < unit(6) {
        5
    } else {
        6
    }
}

/// `s` followed by the letter of a scale: none, then K, M, B, T, P, E.
#[verifier::inline]
pub open spec fn with_suffix(s: Seq<char>, i: nat) -> Seq<char> {
    if i == 0 {
        s
    } else if i == 1 {
        s.push('K')
    } else if i == 2 {
        s.push('M')
    } else if i == 3 {
        s.push('B')
    } else if i == 4 {
        s.push('T')
    } else if i == 5 {
        s.push('P')
    } else {
        s.push('E')
    }
}

/// The decimals shown for `n` at its scale: none for a number below 1000;
/// else two where the scaled value is under 10, one where it is under 100,
/// none otherwise.
#[verifier::inline]
pub open spec fn places(n: nat) -> nat {
    let i = scale(n);
    if i > 0 && n < 10 * unit(i) {
        2
    } else if i > 0 && n < 100 * unit(i) {
        1
    } else {
        0
    }
}

/// 10 to the power `d`, for `d` up to 2.
#[verifier::inline]
pub open spec fn tenth_parts(d: nat) -> nat {
    if d == 0 {
        1
    } else if d == 1 {
        10
    } else {
        100
    }
}

/// `n` divided by its unit, in parts of `tenth_parts(places(n))`, rounded
/// to the nearest part, a half upwards.
#[verifier::inline]
pub open spec fn rounded(n: nat) -> nat {
    let u = unit(scale(n));
    (n * tenth_parts(places(n)) + u / 2) / u
}

/// A count `q` of parts written with `d` decimals, `d` up to 2.
#[verifier::inline]
pub open spec fn with_decimals(q: nat, d: nat) -> Seq<char> {
    if d == 0 {
        decimal(q)
    } else if d == 1 {
        decimal(q / 10).push('.').push(digit_char((q % 10) as int))
    } else {
        decimal(q / 100).push('.').push(digit_char((q % 100 / 10) as int)).push(
            digit_char((q % 10) as int),
        )
    }
}

/// `n` at its scale, with its decimals and its suffix.
#[verifier::inline]
pub open spec fn scaled_text(n: nat) -> Seq<char> {
    with_suffix(with_decimals(rounded(n), places(n)), scale(n))
}

/// A call count as it is shown: `n` at its scale and, where there has been
/// a rollover, the rollover count and a hyphen before it.
#[verifier::inline]
pub open spec fn number_text(rollovers: nat, n: nat) -> Seq<char> {
    if rollovers > 0 {
        decimal(rollovers).push('-') + scaled_text(n)
    } else {
        scaled_text(n)
    }
}

/// The line of averages, each a sum divided by the call counter: the load
/// rounded to the nearest hundredth, the others rounded towards zero.
pub open spec fn average_line(s: StatsView) -> Seq<char>
    recommends
        s.calls > 0,
{
    "│ "@ + pad_right(number_text(s.rollovers as nat, s.calls as nat), 11) + " │ Avg: "@
        + pad_left(fixed2(div_nearest(s.sum_cpu, s.calls)), 8) + " │ Avg: "@ + pad_left(
        signed_decimal(div_toward_zero(s.sum_ram, s.calls)),
        8,
    ) + " │ Avg: "@ + pad_left(signed_decimal(div_toward_zero(s.sum_disk, s.calls)), 8)
        + " │ Avg: "@ + pad_left(decimal((s.sum_time / s.calls) as nat), 8) + " │\n"@
}

/// The line of maxima.
pub open spec fn maximum_line(s: StatsView) -> Seq<char> {
    "│ "@ + spaces(11) + " │ Max: "@ + pad_left(fixed2(s.max_cpu), 8) + " │ Max: "@ + pad_left(
        signed_decimal(s.max_ram),
        8,
    ) + " │ Max: "@ + pad_left(signed_decimal(s.max_disk), 8) + " │ Max: "@ + pad_left(
        decimal(s.max_time as nat),
        8,
    ) + " │\n"@
}

/// The whole report: the display cleared, the banner and the table.
pub open spec fn table_text(s: StatsView) -> Seq<char>
    recommends
        s.calls > 0,
{
    CLEAR@ + BANNER@ + TOP_RULE@ + TITLES@ + MIDDLE_RULE@ + average_line(s) + maximum_line(s)
        + BOTTOM_RULE@
}

/// The report of the statistics, if there is one: none while the call
/// counter is zero.
pub open spec fn report(s: StatsView) -> Option<Seq<char>> {
    if s.calls == 0 {
        None
    } else {
        Some(table_text(s))
    }
}

fn cell_fixed2(v: i64) -> (cell: String)
    ensures
        cell@ == pad_left(fixed2(v as int), 8),
{
    let mut digits = String::new();
    push_fixed2(&mut digits, v);
    let mut cell = String::new();
    push_right_aligned(&mut cell, digits.as_str(), 8);
    cell
}

fn cell_signed(v: i64) -> (cell: String)
    ensures
        cell@ == pad_left(signed_decimal(v as int), 8),
{
    let mut digits = String::new();
    push_signed(&mut digits, v);
    let mut cell = String::new();
    push_right_aligned(&mut cell, digits.as_str(), 8);
    cell
}

fn cell_unsigned(v: u64) -> (cell: String)
    ensures
        cell@ == pad_left(decimal(v as nat), 8),
{
    let mut digits = String::new();
    push_decimal(&mut digits, v as u128);
    let mut cell = String::new();
    push_right_aligned(&mut cell, digits.as_str(), 8);
    cell
}

/// The scale of `n` and the unit of that scale, found by dividing by 1000
/// while the rest is at least 1000.
fn scale_of(n: u64) -> (r: (usize, u128))
    ensures
        r.0 == scale(n as nat),
        r.1 == unit(scale(n as nat)),
{
    let mut i: usize = 0;
    let mut u: u128 = 1;
    while i < 6 && n as u128 >= u * 1000
        invariant
            i <= 6,
            u == unit(i as nat),
            i > 0 ==> n >= u,
        decreases 6 - i,
    {
        u = u * 1000;
        i = i + 1;
    }
    (i, u)
}

fn decimals_text(q: u128, d: usize) -> (text: String)
    requires
        d <= 2,
    ensures
        text@ == with_decimals(q as nat, d as nat),
{
    let mut text = String::new();
    if d == 0 {
        push_decimal(&mut text, q);
    } else if d == 1 {
        push_decimal(&mut text, q / 10);
        text.push('.');
        text.push(digit((q % 10) as u8));
    } else {
        push_decimal(&mut text, q / 100);
        text.push('.');
        text.push(digit((q % 100 / 10) as u8));
        text.push(digit((q % 10) as u8));
    }
    text
}

fn push_suffix(out: &mut String, i: usize)
    requires
        i <= 6,
    ensures
        final(out)@ == with_suffix(old(out)@, i as nat),
{
    if i == 1 {
        out.push('K');
    } else if i == 2 {
        out.push('M');
    } else if i == 3 {
        out.push('B');
    } else if i == 4 {
        out.push('T');
    } else if i == 5 {
        out.push('P');
    } else if i == 6 {
        out.push('E');
    }
}

impl Stats {
    /// The call count `n` as it is shown in the report.
    pub fn format_number(&self, n: u64) -> (text: String)
        ensures
            text@ == number_text(self.total_row as nat, n as nat),
    {
        let (i, u) = scale_of(n);
        let d: usize = if i > 0 && (n as u128) < 10 * u {
            2
        } else if i > 0 && (n as u128) < 100 * u {
            1
        } else {
            0
        };
        let parts: u128 = if d == 2 {
            100
        } else if d == 1 {
            10
        } else {
            1
        };
        let q: u128 = (n as u128 * parts + u / 2) / u;
        let mut figure = decimals_text(q, d);
        push_suffix(&mut figure, i);
        if self.total_row > 0 {
            let mut text = String::new();
            push_decimal(&mut text, self.total_row as u128);
            text.push('-');
            text.append(figure.as_str());
            text
        } else {
            figure
        }
    }

    fn render_averages(&self) -> (line: String)
        requires
            self.total_calls > 0,
        ensures
            line@ == average_line(self@),
    {
        let calls: u64 = self.total_calls;
        let count = self.format_number(calls);
        let cpu = cell_fixed2(div_nearest_i64(self.total_cpu, calls));
        let ram = cell_signed(div_i64(self.total_ram, calls));
        let disk = cell_signed(div_i64(self.total_disk, calls));
        let time = cell_unsigned(self.total_time / calls);
        let mut line = String::from_str("│ ");
        push_left_aligned(&mut line, count.as_str(), 11);
        line.append(" │ Avg: ");
        line.append(cpu.as_str());
        line.append(" │ Avg: ");
        line.append(ram.as_str());
        line.append(" │ Avg: ");
        line.append(disk.as_str());
        line.append(" │ Avg: ");
        line.append(time.as_str());
        line.append(" │\n");
        line
    }

    fn render_maxima(&self) -> (line: String)
        ensures
            line@ == maximum_line(self@),
    {
        let cpu = cell_fixed2(self.max_cpu);
        let ram = cell_signed(self.max_ram);
        let disk = cell_signed(self.max_disk);
        let time = cell_unsigned(self.max_time);
        let mut line = String::from_str("│ ");
        push_spaces(&mut line, 11);
        line.append(" │ Max: ");
        line.append(cpu.as_str());
        line.append(" │ Max: ");
        line.append(ram.as_str());
        line.append(" │ Max: ");
        line.append(disk.as_str());
        line.append(" │ Max: ");
        line.append(time.as_str());
        line.append(" │\n");
        line
    }

    /// The report to show, or none while the call counter is zero. The
    /// statistics are only read.
    pub fn draw_table(&self) -> (shown: Option<String>)
        ensures
            shown is Some == (self.total_calls != 0),
            match shown {
                Some(text) => Some(text@) == report(self@),
                None => report(self@) is None,
            },
    {
        if self.total_calls == 0 {
            return None;
        }
        let averages = self.render_averages();
        let maxima = self.render_maxima();
        let mut out = String::from_str(CLEAR);
        out.append(BANNER);
        out.append(TOP_RULE);
        out.append(TITLES);
        out.append(MIDDLE_RULE);
        out.append(averages.as_str());
        out.append(maxima.as_str());
        out.append(BOTTOM_RULE);
        Some(out)
    }
}

} // verus!
