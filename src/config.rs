//! Turning the three configuration strings into the settings of one request.
use vstd::prelude::*;
use crate::decoration::{get_smiley, smiley_for};
use crate::text::{parse_u32, parse_u32_spec, trim_spec, trim_text};

verus! {

/// The settings of one request.
pub struct Component {
    /// The resolved decoration escape string.
    pub smiley: &'static str,
    /// The percentage of requests to fail, at most 100.
    pub error_fraction: u32,
    /// The candidate delays in milliseconds, in configured order.
    pub delay_buckets: Vec<u32>,
}

/// The decoration name used when none is configured.
pub open spec fn default_smiley_name() -> Seq<char> {
    "Rusty"@
}

/// The view of an optional string slice.
pub open spec fn opt_text(o: Option<&str>) -> Option<Seq<char>> {
    match o {
        Some(s) => Some(s@),
        None => None,
    }
}

/// The error fraction that a configured value gives: its number capped at
/// 100, or 0 when it is missing or no number.
pub open spec fn error_fraction_of(v: Option<Seq<char>>) -> u32 {
    match v {
        Some(s) => match parse_u32_spec(s) {
            Some(n) => if n > 100 {
                100
            } else {
                n
            },
            None => 0,
        },
        None => 0,
    }
}

/// The pieces of `s` between commas, as `str::split(',')` yields them:
/// always at least one, empty pieces included.
pub open spec fn split_commas(s: Seq<char>) -> Seq<Seq<char>>
    decreases s.len(),
{
    if s.len() == 0 {
        seq![Seq::empty()]
    } else {
        let rest = split_commas(s.drop_last());
        if s.last() == ',' {
            rest.push(Seq::empty())
        } else {
            rest.update(rest.len() - 1, rest.last().push(s.last()))
        }
    }
}

/// The numbers among `pieces`, each read after trimming; the rest are dropped.
pub open spec fn parsed_buckets(pieces: Seq<Seq<char>>) -> Seq<u32>
    decreases pieces.len(),
{
    if pieces.len() == 0 {
        seq![]
    } else {
        let rest = parsed_buckets(pieces.drop_last());
        match parse_u32_spec(trim_spec(pieces.last())) {
            Some(v) => rest.push(v),
            None => rest,
        }
    }
}

/// The delay buckets that a configured value gives.
pub open spec fn delay_buckets_of(v: Option<Seq<char>>) -> Seq<u32> {
    match v {
        Some(s) => parsed_buckets(split_commas(s)),
        None => seq![],
    }
}

/// The decoration that a configured name gives.
pub open spec fn smiley_of(v: Option<Seq<char>>) -> Seq<char> {
    match v {
        Some(s) => smiley_for(s),
        None => smiley_for(default_smiley_name()),
    }
}

/// Reads the error fraction from its configured value.
pub fn parse_error_fraction(value: Option<&str>) -> (r: u32)
    ensures
        r == error_fraction_of(opt_text(value)),
        r <= 100,
{
    match value {
        Some(s) => match parse_u32(s) {
            Some(n) => if n > 100 {
                100
            } else {
                n
            },
            None => 0,
        },
        None => 0,
    }
}

fn push_bucket(out: &mut Vec<u32>, piece: &str)
    ensures
        final(out)@ == match parse_u32_spec(trim_spec(piece@)) {
            Some(v) => old(out)@.push(v),
            None => old(out)@,
        },
{
    match parse_u32(trim_text(piece)) {
        Some(v) => out.push(v),
        None => {},
    }
}

/// Reads the comma-separated delay buckets of `s`.
pub fn parse_delay_list(s: &str) -> (r: Vec<u32>)
    ensures
        r@ == parsed_buckets(split_commas(s@)),
{
    let n: usize = s.unicode_len();
    let mut out: Vec<u32> = Vec::new();
    let mut start: usize = 0;
    let mut i: usize = 0;
    let ghost done: Seq<Seq<char>> = seq![];
    assert(s@.take(0) =~= Seq::<char>::empty());
    assert(s@.subrange(0, 0) =~= Seq::<char>::empty());
    assert(split_commas(Seq::<char>::empty()) =~= done.push(Seq::<char>::empty()));
    while i < n
        invariant
            n == s@.len(),
            start <= i <= n,
            split_commas(s@.take(i as int)) == done.push(s@.subrange(start as int, i as int)),
            out@ == parsed_buckets(done),
        decreases n - i,
    {
        let c: char = s.get_char(i);
        let ghost cur = s@.subrange(start as int, i as int);
        assert(s@.take(i + 1).drop_last() =~= s@.take(i as int));
        assert(s@.take(i + 1).last() == c);
        if c == ',' {
            let piece = s.substring_char(start, i);
            push_bucket(&mut out, piece);
            proof {
                assert(done.push(cur).drop_last() =~= done);
                done = done.push(cur);
                assert(s@.subrange(i + 1, i + 1) =~= Seq::<char>::empty());
            }
            start = i + 1;
        } else {
            assert(s@.subrange(start as int, i + 1) =~= cur.push(c));
            assert(done.push(cur).update(done.len() as int, cur.push(c)) =~= done.push(cur.push(c)));
        }
        i = i + 1;
    }
    assert(s@.take(n as int) =~= s@);
    let ghost cur = s@.subrange(start as int, n as int);
    let piece = s.substring_char(start, n);
    push_bucket(&mut out, piece);
    assert(done.push(cur).drop_last() =~= done);
    out
}

/// Reads the delay buckets from their configured value.
pub fn parse_delay_buckets(value: Option<&str>) -> (r: Vec<u32>)
    ensures
        r@ == delay_buckets_of(opt_text(value)),
{
    match value {
        Some(s) => parse_delay_list(s),
        None => Vec::new(),
    }
}

impl Component {
    /// Whether the settings are within their ranges.
    pub open spec fn wf(&self) -> bool {
        self.error_fraction <= 100
    }

    /// Builds the settings from the configured values of the error fraction,
    /// the delay buckets and the decoration name; a missing or unreadable
    /// value takes its default.
    pub fn from_config(
        error_fraction: Option<&str>,
        delay_buckets: Option<&str>,
        smiley: Option<&str>,
    ) -> (r: Component)
        ensures
            r.wf(),
            r.error_fraction == error_fraction_of(opt_text(error_fraction)),
            r.delay_buckets@ == delay_buckets_of(opt_text(delay_buckets)),
            r.smiley@ == smiley_of(opt_text(smiley)),
    {
        let smiley = match smiley {
            Some(name) => get_smiley(name),
            None => get_smiley("Rusty"),
        };
        Component {
            smiley,
            error_fraction: parse_error_fraction(error_fraction),
            delay_buckets: parse_delay_buckets(delay_buckets),
        }
    }
}

} // verus!
