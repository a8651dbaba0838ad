//! The processor time of the process, as the kernel reports it in the
//! `stat` file of the process: reading the two counters out of the line,
//! and the ticks between two readings.

use crate::text::{
    after_last, bounded, chars_of, is_whitespace_char, parse_bounded, parse_unsigned, trim_ws_end,
    words, words_of,
};
use vstd::prelude::*;

verus! {

/// The counters of processor time, in clock ticks: user mode and kernel
/// mode.
#[derive(Debug, Clone, Copy, PartialEq, Eq, Structural)]
pub struct CpuTimes {
    pub utime: u64,
    pub stime: u64,
}

/// Place of the user time among the fields after the command name.
pub const UTIME_FIELD: usize = 11;

/// Place of the kernel time among the fields after the command name.
pub const STIME_FIELD: usize = 12;

/// The fields of a `stat` line that follow the command name: the words
/// after the last `)` of the line. The command name stands in parentheses
/// and may itself hold spaces and parentheses. `None` for a line without
/// `)`.
pub open spec fn fields_after_command(stat: Seq<char>) -> Option<Seq<Seq<char>>> {
    let line = trim_ws_end(stat);
    let p = after_last(line, ')', line.len() as int);
    if p == 0 {
        None
    } else {
        Some(words(line.skip(p)))
    }
}

/// The counters that a `stat` line holds: the twelfth and the thirteenth
/// field after the command name, each an unsigned decimal numeral that fits
/// 64 bits. `None` for a line that does not hold them.
pub open spec fn cpu_times_of(stat: Seq<char>) -> Option<CpuTimes> {
    match fields_after_command(stat) {
        None => None,
        Some(fields) => if fields.len() < 13 {
            None
        } else {
            match (
                bounded(parse_unsigned(fields[11]), u64::MAX),
                bounded(parse_unsigned(fields[12]), u64::MAX),
            ) {
                (Some(utime), Some(stime)) => Some(CpuTimes { utime, stime }),
                _ => None,
            }
        },
    }
}

/// `a - b`, or 0 where `b` is the larger.
pub open spec fn ticks_gone(a: u64, b: u64) -> int {
    if a >= b {
        a - b
    } else {
        0
    }
}

/// Reads the counters out of the `stat` line of a process.
pub fn read_cpu_times(stat: &str) -> (r: Option<CpuTimes>)
    ensures
        r == cpu_times_of(stat@),
{
    let mut v = chars_of(stat);
    let mut end: usize = v.len();
    assert(v@.take(end as int) == v@);
    while end > 0 && is_whitespace_char(v[end - 1])
        invariant
            end <= v.len(),
            v@ == stat@,
            trim_ws_end(v@) == trim_ws_end(v@.take(end as int)),
        decreases end,
    {
        assert(v@.take(end as int).drop_last() == v@.take(end - 1));
        end -= 1;
    }
    v.truncate(end);
    let mut p: usize = v.len();
    while p > 0 && v[p - 1] != ')'
        invariant
            p <= v.len(),
            after_last(v@, ')', v.len() as int) == after_last(v@, ')', p as int),
        decreases p,
    {
        p -= 1;
    }
    if p == 0 {
        return None;
    }
    let fields = words_of(&v, p);
    if fields.len() < 13 {
        return None;
    }
    let utime = parse_bounded(fields[UTIME_FIELD].as_str(), u64::MAX);
    let stime = parse_bounded(fields[STIME_FIELD].as_str(), u64::MAX);
    match (utime, stime) {
        (Some(utime), Some(stime)) => Some(CpuTimes { utime, stime }),
        _ => None,
    }
}

impl CpuTimes {
    /// The ticks of processor time between an earlier reading and this one:
    /// what each counter gained, a counter that went back counting as no
    /// gain.
    pub fn ticks_since(&self, last: &CpuTimes) -> (r: u64)
        requires
            ticks_gone(self.utime, last.utime) + ticks_gone(self.stime, last.stime) <= u64::MAX,
        ensures
            r == ticks_gone(self.utime, last.utime) + ticks_gone(self.stime, last.stime),
    {
        let delta_utime = self.utime.saturating_sub(last.utime);
        let delta_stime = self.stime.saturating_sub(last.stime);
        delta_utime + delta_stime
    }
}

/// Follows the processor time of a process from one reading to the next.
#[derive(Debug, Clone, Copy, PartialEq, Eq, Structural)]
pub struct CpuReadings {
    /// The reading that the next one is compared with.
    pub last: CpuTimes,
    /// Whether there has been a reading.
    pub initialized: bool,
}

/// The readings after one more: the reading is the one to compare with next.
pub open spec fn readings_after(times: CpuTimes) -> CpuReadings {
    CpuReadings { last: times, initialized: true }
}

impl CpuReadings {
    /// No reading yet.
    pub fn new() -> (r: Self)
        ensures
            r == (CpuReadings { last: CpuTimes { utime: 0, stime: 0 }, initialized: false }),
    {
        CpuReadings { last: CpuTimes { utime: 0, stime: 0 }, initialized: false }
    }

    /// Takes a reading in and returns the ticks of processor time since the
    /// reading before it. The first reading has nothing to be compared with,
    /// and neither has one that comes too soon after the one before it, as
    /// `long_enough` says: for those the result is `None`. Every reading
    /// becomes the one that the next is compared with.
    pub fn advance(&mut self, times: CpuTimes, long_enough: bool) -> (r: Option<u64>)
        requires
            ticks_gone(times.utime, old(self).last.utime) + ticks_gone(
                times.stime,
                old(self).last.stime,
            ) <= u64::MAX,
        ensures
            *final(self) == readings_after(times),
            r == if old(self).initialized && long_enough {
                Some(
                    (ticks_gone(times.utime, old(self).last.utime) + ticks_gone(
                        times.stime,
                        old(self).last.stime,
                    )) as u64,
                )
            } else {
                None
            },
    {
        let r = if self.initialized && long_enough {
            Some(times.ticks_since(&self.last))
        } else {
            None
        };
        self.last = times;
        self.initialized = true;
        r
    }
}

} // verus!
