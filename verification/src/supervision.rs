//! Small gauges and counters of the knowledge and memory supervision
//! panels.
use vstd::prelude::*;

use crate::chars::{dec, dec_string, join, join_strings, push_char, push_str, views};

verus! {

/// `n` copies of `c`.
pub open spec fn repeat_char(c: char, n: nat) -> Seq<char> {
    Seq::new(n, |_i: int| c)
}

fn push_repeated(s: &mut String, c: char, n: usize)
    ensures
        final(s)@ == old(s)@ + repeat_char(c, n as nat),
{
    let mut i: usize = 0;
    while i < n
        invariant
            i <= n,
            s@ == old(s)@ + repeat_char(c, i as nat),
        decreases n - i,
    {
        push_char(s, c);
        i = i + 1;
        proof {
            assert(s@ =~= old(s)@ + repeat_char(c, i as nat));
        }
    }
}

/// `value * width` saturated at the largest `u64`.
pub open spec fn sat_mul64(value: u64, width: usize) -> int {
    if value * width > u64::MAX {
        u64::MAX as int
    } else {
        value * width
    }
}

/// The filled cells of a bar `width` cells wide for `value` out of `max`:
/// the share rounded up, at most the width (none when `max` is 0).
pub open spec fn filled_cells(value: u64, max: u64, width: usize) -> int {
    if max == 0 {
        0
    } else {
        let f = (sat_mul64(value, width) + max - 1) / (max as int);
        if f <= width {
            f
        } else {
            width as int
        }
    }
}

/// A gauge of `width` cells: `█` for the filled share, `░` for the rest.
pub fn compact_bar(value: u64, max: u64, width: usize) -> (r: String)
    requires
        max == 0 || sat_mul64(value, width) + max <= u64::MAX,
    ensures
        r@ == repeat_char('█', filled_cells(value, max, width) as nat) + repeat_char(
            '░',
            (width - filled_cells(value, max, width)) as nat,
        ),
{
    let filled: usize = if max == 0 {
        0
    } else {
        let w = width as u64;
        let product = match value.checked_mul(w) {
            Some(p) => p,
            None => u64::MAX,
        };
        proof {
            assert(w == width);
            assert(product as int == sat_mul64(value, width));
        }
        let f = (product + max - 1) / max;
        if f <= w {
            f as usize
        } else {
            width
        }
    };
    let mut s = String::new();
    push_repeated(&mut s, '█', filled);
    push_repeated(&mut s, '░', width - filled);
    proof {
        assert(Seq::<char>::empty() + repeat_char('█', filled as nat) =~= repeat_char('█', filled as nat));
    }
    s
}

/// `key=value` entries joined with `, `, or `none`.
pub open spec fn spec_kv_counts(counts: Seq<(String, u64)>) -> Seq<char> {
    if counts.len() == 0 {
        "none"@
    } else {
        join(counts.map_values(|e: (String, u64)| e.0@ + "="@ + dec(e.1 as nat)), ", "@)
    }
}

pub fn format_kv_counts(counts: &Vec<(String, u64)>) -> (r: String)
    ensures
        r@ == spec_kv_counts(counts@),
{
    if counts.len() == 0 {
        return "none".to_owned();
    }
    let mut parts: Vec<String> = Vec::new();
    let mut i: usize = 0;
    while i < counts.len()
        invariant
            i <= counts@.len(),
            views(parts@) == counts@.take(i as int).map_values(|e: (String, u64)| e.0@ + "="@ + dec(e.1 as nat)),
        decreases counts.len() - i,
    {
        let mut s = counts[i].0.clone();
        push_str(&mut s, "=");
        push_str(&mut s, dec_string(counts[i].1).as_str());
        let ghost sv = s@;
        parts.push(s);
        proof {
            let f = |e: (String, u64)| e.0@ + "="@ + dec(e.1 as nat);
            assert(counts@.take(i + 1).map_values(f) =~= counts@.take(i as int).map_values(f).push(f(counts@[i as int])));
            assert(views(parts@) =~= views(parts@.drop_last()).push(sv));
        }
        i = i + 1;
    }
    proof {
        assert(counts@.take(counts@.len() as int) =~= counts@);
    }
    join_strings(&parts, ", ")
}

/// One gauge line of the hits dashboard: `  <label> <bar> <hits>`.
pub open spec fn gauge_line(label: Seq<char>, hits: u64, max: u64) -> Seq<char> {
    "  "@ + label + " "@ + repeat_char('█', filled_cells(hits, max, 6) as nat) + repeat_char(
        '░',
        (6 - filled_cells(hits, max, 6)) as nat,
    ) + " "@ + dec(hits as nat)
}

/// The largest of the three hit counts, and at least 1.
pub open spec fn dashboard_max(doc: u64, mem: u64, obs: u64) -> u64 {
    let a = if doc >= mem {
        doc
    } else {
        mem
    };
    let b = if a >= obs {
        a
    } else {
        obs
    };
    if b >= 1 {
        b
    } else {
        1
    }
}

fn gauge(label: &str, hits: u64, max: u64) -> (r: String)
    requires
        1 <= max,
        sat_mul64(hits, 6) + max <= u64::MAX,
    ensures
        r@ == gauge_line(label@, hits, max),
{
    let mut s = "  ".to_owned();
    push_str(&mut s, label);
    push_str(&mut s, " ");
    push_str(&mut s, compact_bar(hits, max, 6).as_str());
    push_str(&mut s, " ");
    push_str(&mut s, dec_string(hits).as_str());
    s
}

/// The hit gauges of the knowledge panel: document, memory and
/// observation hits, each against the largest of the three.
pub fn hits_dashboard_lines(doc: u64, mem: u64, obs: u64) -> (r: Vec<String>)
    requires
        sat_mul64(doc, 6) + dashboard_max(doc, mem, obs) <= u64::MAX,
        sat_mul64(mem, 6) + dashboard_max(doc, mem, obs) <= u64::MAX,
        sat_mul64(obs, 6) + dashboard_max(doc, mem, obs) <= u64::MAX,
    ensures
        views(r@) == seq![
            "hits:"@,
            gauge_line("doc"@, doc, dashboard_max(doc, mem, obs)),
            gauge_line("mem"@, mem, dashboard_max(doc, mem, obs)),
            gauge_line("obs"@, obs, dashboard_max(doc, mem, obs)),
        ],
{
    let a = if doc >= mem {
        doc
    } else {
        mem
    };
    let b = if a >= obs {
        a
    } else {
        obs
    };
    let max = if b >= 1 {
        b
    } else {
        1
    };
    let mut r: Vec<String> = Vec::new();
    r.push("hits:".to_owned());
    r.push(gauge("doc", doc, max));
    r.push(gauge("mem", mem, max));
    r.push(gauge("obs", obs, max));
    proof {
        assert(views(r@) =~= seq![
            "hits:"@,
            gauge_line("doc"@, doc, max),
            gauge_line("mem"@, mem, max),
            gauge_line("obs"@, obs, max),
        ]);
    }
    r
}

} // verus!
