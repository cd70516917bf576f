//! Run log bookkeeping.
//!
//! The log numbers every message, tags it with its kind, and keeps per-kind
//! counters for the closing summary.  Composing the message lines and
//! keeping the counters is exact work and is done here; the caller prints
//! the returned lines.

use vstd::prelude::*;
use vstd::string::StringExecFns;

verus! {

/// The character of the decimal digit `d`.
pub open spec fn digit_char(d: int) -> char {
    if d == 0 {
        '0'
    } else if d == 1 {
        '1'
    } else if d == 2 {
        '2'
    } else if d == 3 {
        '3'
    } else if d == 4 {
        '4'
    } else if d == 5 {
        '5'
    } else if d == 6 {
        '6'
    } else if d == 7 {
        '7'
    } else if d == 8 {
        '8'
    } else {
        '9'
    }
}

/// The decimal digits of `n`, most significant first.
pub open spec fn dec_digits(n: int) -> Seq<char>
    recommends
        n >= 0,
    decreases n,
{
    if n < 10 {
        seq![digit_char(n)]
    } else {
        dec_digits(n / 10).push(digit_char(n % 10))
    }
}

/// Zero padding that brings a count below 10000 to four digits.
pub open spec fn counter_pad(n: int) -> Seq<char> {
    if n < 10 {
        seq!['0', '0', '0']
    } else if n < 100 {
        seq!['0', '0']
    } else if n < 1000 {
        seq!['0']
    } else {
        Seq::<char>::empty()
    }
}

/// The numbered prefix of a log line: the count in brackets, padded to at
/// least four digits, followed by a space.
pub open spec fn counter_label(n: int) -> Seq<char> {
    seq!['['] + counter_pad(n) + dec_digits(n) + seq![']', ' ']
}

/// Increment that stays put at the top of the counter range.
pub open spec fn sat_inc(c: int) -> int {
    if c < 0x7fff_ffff_ffff_ffff {
        c + 1
    } else {
        c
    }
}

/// Append the decimal digits of `n` to `out`.
fn push_decimal(out: &mut String, n: u64)
    ensures
        final(out)@ == old(out)@ + dec_digits(n as int),
    decreases n,
{
    if n >= 10 {
        push_decimal(out, n / 10);
    }
    let d: u64 = n % 10;
    let ds: &str = if d == 0 {
        "0"
    } else if d == 1 {
        "1"
    } else if d == 2 {
        "2"
    } else if d == 3 {
        "3"
    } else if d == 4 {
        "4"
    } else if d == 5 {
        "5"
    } else if d == 6 {
        "6"
    } else if d == 7 {
        "7"
    } else if d == 8 {
        "8"
    } else {
        "9"
    };
    proof {
        reveal_strlit("0");
        reveal_strlit("1");
        reveal_strlit("2");
        reveal_strlit("3");
        reveal_strlit("4");
        reveal_strlit("5");
        reveal_strlit("6");
        reveal_strlit("7");
        reveal_strlit("8");
        reveal_strlit("9");
        assert(ds@ =~= seq![digit_char(d as int)]);
    }
    out.append(ds);
    proof {
        assert(out@ =~= old(out)@ + dec_digits(n as int));
    }
}

/// The decimal digits of a non-negative count, as a string.
fn decimal_string(n: i64) -> (s: String)
    requires
        n >= 0,
    ensures
        s@ == dec_digits(n as int),
{
    let mut out = String::new();
    push_decimal(&mut out, n as u64);
    proof {
        assert(out@ =~= dec_digits(n as int));
    }
    out
}

/// Message log with a running count and per-kind counters.
pub struct RLog {
    msg_counter: i64,
    msg_type_counter: i64,
    wrn_type_counter: i64,
    err_type_counter: i64,
    dbg_type_counter: i64,
    enable_debug_msgs: bool,
}

impl RLog {
    /// Messages numbered so far.
    pub closed spec fn msg_count(self) -> int {
        self.msg_counter as int
    }

    /// Plain messages logged.
    pub closed spec fn msg_type_count(self) -> int {
        self.msg_type_counter as int
    }

    /// Warnings logged.
    pub closed spec fn wrn_type_count(self) -> int {
        self.wrn_type_counter as int
    }

    /// Errors logged.
    pub closed spec fn err_type_count(self) -> int {
        self.err_type_counter as int
    }

    /// Debug messages logged.
    pub closed spec fn dbg_type_count(self) -> int {
        self.dbg_type_counter as int
    }

    /// Whether debug messages are shown.
    pub closed spec fn debug_enabled(self) -> bool {
        self.enable_debug_msgs
    }

    pub open spec fn wf(self) -> bool {
        &&& 0 <= self.msg_count()
        &&& 0 <= self.msg_type_count()
        &&& 0 <= self.wrn_type_count()
        &&& 0 <= self.err_type_count()
        &&& 0 <= self.dbg_type_count()
    }

    /// A fresh log: all counters zero, debug messages off.
    pub fn new() -> (l: RLog)
        ensures
            l.wf(),
            l.msg_count() == 0,
            l.msg_type_count() == 0,
            l.wrn_type_count() == 0,
            l.err_type_count() == 0,
            l.dbg_type_count() == 0,
            !l.debug_enabled(),
    {
        RLog {
            msg_counter: 0,
            msg_type_counter: 0,
            wrn_type_counter: 0,
            err_type_counter: 0,
            dbg_type_counter: 0,
            enable_debug_msgs: false,
        }
    }

    pub fn set_enable_debug_messages(&mut self, flag_in: &bool)
        requires
            old(self).wf(),
        ensures
            final(self).wf(),
            final(self).debug_enabled() == *flag_in,
            final(self).msg_count() == old(self).msg_count(),
            final(self).msg_type_count() == old(self).msg_type_count(),
            final(self).wrn_type_count() == old(self).wrn_type_count(),
            final(self).err_type_count() == old(self).err_type_count(),
            final(self).dbg_type_count() == old(self).dbg_type_count(),
    {
        self.enable_debug_msgs = *flag_in;
    }

    /// The numbered prefix for the next message, `[0000] ` style: the count
    /// in brackets, zero-padded to at least four digits.
    pub fn create_counter_string(&self) -> (s: String)
        requires
            self.wf(),
        ensures
            s@ == counter_label(self.msg_count()),
    {
        let mut out = String::new();
        proof {
            reveal_strlit("[");
            reveal_strlit("000");
            reveal_strlit("00");
            reveal_strlit("0");
            reveal_strlit("] ");
        }
        out.append("[");
        if self.msg_counter < 10 {
            out.append("000");
        } else if self.msg_counter < 100 {
            out.append("00");
        } else if self.msg_counter < 1000 {
            out.append("0");
        }
        proof {
            assert(out@ =~= seq!['['] + counter_pad(self.msg_count()));
        }
        push_decimal(&mut out, self.msg_counter as u64);
        out.append("] ");
        proof {
            assert(out@ =~= counter_label(self.msg_count()));
        }
        out
    }

    /// A plain message: the numbered line to print.  Advances the running
    /// count and the plain-message counter.
    #[allow(non_snake_case)]
    pub fn rLogMsg(&mut self, msg_str_in: &str) -> (line: String)
        requires
            old(self).wf(),
        ensures
            final(self).wf(),
            line@ == counter_label(old(self).msg_count()) + "[MSG] "@ + msg_str_in@,
            final(self).msg_count() == sat_inc(old(self).msg_count()),
            final(self).msg_type_count() == sat_inc(old(self).msg_type_count()),
            final(self).wrn_type_count() == old(self).wrn_type_count(),
            final(self).err_type_count() == old(self).err_type_count(),
            final(self).dbg_type_count() == old(self).dbg_type_count(),
            final(self).debug_enabled() == old(self).debug_enabled(),
    {
        let mut line = self.create_counter_string();
        line.append("[MSG] ");
        line.append(msg_str_in);
        self.msg_type_counter = bump(self.msg_type_counter);
        self.msg_counter = bump(self.msg_counter);
        line
    }

    /// A warning: the numbered line to print.  Advances the running count
    /// and the warning counter.
    #[allow(non_snake_case)]
    pub fn rLogWrn(&mut self, msg_str_in: &str) -> (line: String)
        requires
            old(self).wf(),
        ensures
            final(self).wf(),
            line@ == counter_label(old(self).msg_count()) + "[WRN] "@ + msg_str_in@,
            final(self).msg_count() == sat_inc(old(self).msg_count()),
            final(self).wrn_type_count() == sat_inc(old(self).wrn_type_count()),
            final(self).msg_type_count() == old(self).msg_type_count(),
            final(self).err_type_count() == old(self).err_type_count(),
            final(self).dbg_type_count() == old(self).dbg_type_count(),
            final(self).debug_enabled() == old(self).debug_enabled(),
    {
        let mut line = self.create_counter_string();
        line.append("[WRN] ");
        line.append(msg_str_in);
        self.wrn_type_counter = bump(self.wrn_type_counter);
        self.msg_counter = bump(self.msg_counter);
        line
    }

    /// An error: the numbered line to print.  Advances the running count
    /// and the error counter.
    #[allow(non_snake_case)]
    pub fn rLogErr(&mut self, msg_str_in: &str) -> (line: String)
        requires
            old(self).wf(),
        ensures
            final(self).wf(),
            line@ == counter_label(old(self).msg_count()) + "[ERR] !! "@ + msg_str_in@,
            final(self).msg_count() == sat_inc(old(self).msg_count()),
            final(self).err_type_count() == sat_inc(old(self).err_type_count()),
            final(self).msg_type_count() == old(self).msg_type_count(),
            final(self).wrn_type_count() == old(self).wrn_type_count(),
            final(self).dbg_type_count() == old(self).dbg_type_count(),
            final(self).debug_enabled() == old(self).debug_enabled(),
    {
        let mut line = self.create_counter_string();
        line.append("[ERR] !! ");
        line.append(msg_str_in);
        self.err_type_counter = bump(self.err_type_counter);
        self.msg_counter = bump(self.msg_counter);
        line
    }

    /// A debug message: the numbered line to print, or nothing while debug
    /// messages are off.  When shown it advances the plain-message and
    /// debug counters but not the running count.
    #[allow(non_snake_case)]
    pub fn rLogDbg(&mut self, msg_str_in: &str) -> (line: Option<String>)
        requires
            old(self).wf(),
        ensures
            final(self).wf(),
            final(self).debug_enabled() == old(self).debug_enabled(),
            old(self).debug_enabled() ==> {
                &&& line is Some
                &&& line.unwrap()@ == counter_label(old(self).msg_count()) + "[DBG] "@
                    + msg_str_in@
                &&& final(self).msg_type_count() == sat_inc(old(self).msg_type_count())
                &&& final(self).dbg_type_count() == sat_inc(old(self).dbg_type_count())
            },
            !old(self).debug_enabled() ==> {
                &&& line is None
                &&& final(self).msg_type_count() == old(self).msg_type_count()
                &&& final(self).dbg_type_count() == old(self).dbg_type_count()
            },
            final(self).msg_count() == old(self).msg_count(),
            final(self).wrn_type_count() == old(self).wrn_type_count(),
            final(self).err_type_count() == old(self).err_type_count(),
    {
        if self.enable_debug_msgs {
            let mut line = self.create_counter_string();
            line.append("[DBG] ");
            line.append(msg_str_in);
            self.msg_type_counter = bump(self.msg_type_counter);
            self.dbg_type_counter = bump(self.dbg_type_counter);
            Some(line)
        } else {
            None
        }
    }

    /// The closing summary: one line per message kind, warnings and errors
    /// flagged when any occurred.
    pub fn close(&self) -> (lines: Vec<String>)
        requires
            self.wf(),
        ensures
            lines@.len() == 4,
            lines@[0]@ == "    MSG: "@ + dec_digits(self.msg_type_count()),
            self.wrn_type_count() == 0 ==> lines@[1]@ == "[x] WRN: "@ + dec_digits(0),
            self.wrn_type_count() != 0 ==> lines@[1]@ == "[!] WRN: "@ + dec_digits(
                self.wrn_type_count(),
            ) + " <----- !"@,
            self.err_type_count() == 0 ==> lines@[2]@ == "[x] ERR: "@ + dec_digits(0),
            self.err_type_count() != 0 ==> lines@[2]@ == "[!] ERR: "@ + dec_digits(
                self.err_type_count(),
            ) + " <------ !!!"@,
            lines@[3]@ == "    DBG: "@ + dec_digits(self.dbg_type_count()),
    {
        let mut lines: Vec<String> = Vec::new();
        let mut msg_line = String::from_str("    MSG: ");
        msg_line.append(decimal_string(self.msg_type_counter).as_str());
        lines.push(msg_line);
        if self.wrn_type_counter == 0 {
            let mut wrn_line = String::from_str("[x] WRN: ");
            wrn_line.append(decimal_string(self.wrn_type_counter).as_str());
            lines.push(wrn_line);
        } else {
            let mut wrn_line = String::from_str("[!] WRN: ");
            wrn_line.append(decimal_string(self.wrn_type_counter).as_str());
            wrn_line.append(" <----- !");
            lines.push(wrn_line);
        }
        if self.err_type_counter == 0 {
            let mut err_line = String::from_str("[x] ERR: ");
            err_line.append(decimal_string(self.err_type_counter).as_str());
            lines.push(err_line);
        } else {
            let mut err_line = String::from_str("[!] ERR: ");
            err_line.append(decimal_string(self.err_type_counter).as_str());
            err_line.append(" <------ !!!");
            lines.push(err_line);
        }
        let mut dbg_line = String::from_str("    DBG: ");
        dbg_line.append(decimal_string(self.dbg_type_counter).as_str());
        lines.push(dbg_line);
        lines
    }
}

/// Advance a counter, staying put at the top of its range.
fn bump(c: i64) -> (r: i64)
    requires
        c >= 0,
    ensures
        r == sat_inc(c as int),
        r >= 0,
{
    if c < 0x7fff_ffff_ffff_ffff {
        c + 1
    } else {
        c
    }
}

} // verus!
