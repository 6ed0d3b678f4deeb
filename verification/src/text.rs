//! Verified text building: decimal rendering, the relative-time and calendar
//! formatting used by the detail panels, and small string helpers.

use vstd::prelude::*;

use vstd::arithmetic::div_mod::lemma_div_decreases;
use vstd::arithmetic::div_mod::lemma_div_is_ordered;
use vstd::arithmetic::div_mod::lemma_div_is_ordered_by_denominator;
use vstd::arithmetic::div_mod::lemma_div_nonincreasing;
use vstd::arithmetic::div_mod::lemma_mod_bound;
use vstd::string::StrSliceExecFns;
use vstd::string::StringExecFns;

verus! {

/// The character for one decimal digit.
pub open spec fn digit_char(d: nat) -> char {
    if d == 0 {
        '0'
    } else if d == 1 {
        '1'
    } else if d == 2 {
        '2'
    } else if d == 3 {
        '3'
    } else if d == 4 {
        '4'
    } else if d == 5 {
        '5'
    } else if d == 6 {
        '6'
    } else if d == 7 {
        '7'
    } else if d == 8 {
        '8'
    } else {
        '9'
    }
}

/// The decimal rendering of `n`, without leading zeros (a lone zero for 0).
pub open spec fn dec_str(n: nat) -> Seq<char>
    decreases n,
{
    if n < 10 {
        seq![digit_char(n)]
    } else {
        dec_str(n / 10).push(digit_char(n % 10))
    }
}

/// Relies on String::push: appends one character to the end of the string.
#[verifier::external_body]
pub(crate) fn push_char(s: &mut String, c: char)
    ensures
        final(s)@ == old(s)@.push(c),
{
    s.push(c);
}

/// Append the character of the decimal digit `d`.
fn push_digit(s: &mut String, d: u64)
    requires
        d < 10,
    ensures
        final(s)@ == old(s)@.push(digit_char(d as nat)),
{
    let ghost pre = s@;
    if d == 0 {
        s.append("0");
        proof {
            reveal_strlit("0");
            assert(pre + "0"@ =~= pre.push('0'));
        }
    } else if d == 1 {
        s.append("1");
        proof {
            reveal_strlit("1");
            assert(pre + "1"@ =~= pre.push('1'));
        }
    } else if d == 2 {
        s.append("2");
        proof {
            reveal_strlit("2");
            assert(pre + "2"@ =~= pre.push('2'));
        }
    } else if d == 3 {
        s.append("3");
        proof {
            reveal_strlit("3");
            assert(pre + "3"@ =~= pre.push('3'));
        }
    } else if d == 4 {
        s.append("4");
        proof {
            reveal_strlit("4");
            assert(pre + "4"@ =~= pre.push('4'));
        }
    } else if d == 5 {
        s.append("5");
        proof {
            reveal_strlit("5");
            assert(pre + "5"@ =~= pre.push('5'));
        }
    } else if d == 6 {
        s.append("6");
        proof {
            reveal_strlit("6");
            assert(pre + "6"@ =~= pre.push('6'));
        }
    } else if d == 7 {
        s.append("7");
        proof {
            reveal_strlit("7");
            assert(pre + "7"@ =~= pre.push('7'));
        }
    } else if d == 8 {
        s.append("8");
        proof {
            reveal_strlit("8");
            assert(pre + "8"@ =~= pre.push('8'));
        }
    } else {
        s.append("9");
        proof {
            reveal_strlit("9");
            assert(pre + "9"@ =~= pre.push('9'));
        }
    }
}

/// Append the decimal rendering of `n`.
pub fn push_dec_u64(s: &mut String, n: u64)
    ensures
        final(s)@ == old(s)@ + dec_str(n as nat),
    decreases n,
{
    let ghost pre = s@;
    if n < 10 {
        push_digit(s, n);
        proof {
            assert(pre.push(digit_char(n as nat)) =~= pre + dec_str(n as nat));
        }
    } else {
        proof {
            lemma_div_decreases(n as int, 10);
        }
        push_dec_u64(s, n / 10);
        push_digit(s, n % 10);
        proof {
            assert((pre + dec_str((n / 10) as nat)).push(digit_char((n % 10) as nat)) =~= pre
                + dec_str(n as nat));
        }
    }
}

/// The decimal rendering of `n` as an owned string.
pub fn u64_to_string(n: u64) -> (r: String)
    ensures
        r@ == dec_str(n as nat),
{
    let mut s = String::new();
    push_dec_u64(&mut s, n);
    proof {
        assert(Seq::<char>::empty() + dec_str(n as nat) =~= dec_str(n as nat));
    }
    s
}

/// The decimal rendering of `n`, zero-padded on the left to two characters.
pub open spec fn pad2_str(n: nat) -> Seq<char> {
    if n < 10 {
        "0"@ + dec_str(n)
    } else {
        dec_str(n)
    }
}

/// Append `n` zero-padded to at least two characters.
fn push_pad2(s: &mut String, n: u64)
    ensures
        final(s)@ == old(s)@ + pad2_str(n as nat),
{
    let ghost pre = s@;
    if n < 10 {
        s.append("0");
        push_dec_u64(s, n);
        proof {
            assert((pre + "0"@) + dec_str(n as nat) =~= pre + pad2_str(n as nat));
        }
    } else {
        push_dec_u64(s, n);
    }
}

/// The three-letter month label, or a placeholder outside 1..=12.
pub open spec fn month_name(m: nat) -> Seq<char> {
    if m == 1 {
        "Jan"@
    } else if m == 2 {
        "Feb"@
    } else if m == 3 {
        "Mar"@
    } else if m == 4 {
        "Apr"@
    } else if m == 5 {
        "May"@
    } else if m == 6 {
        "Jun"@
    } else if m == 7 {
        "Jul"@
    } else if m == 8 {
        "Aug"@
    } else if m == 9 {
        "Sep"@
    } else if m == 10 {
        "Oct"@
    } else if m == 11 {
        "Nov"@
    } else if m == 12 {
        "Dec"@
    } else {
        "???"@
    }
}

fn month_name_str(m: u64) -> (r: &'static str)
    ensures
        r@ == month_name(m as nat),
{
    if m == 1 {
        "Jan"
    } else if m == 2 {
        "Feb"
    } else if m == 3 {
        "Mar"
    } else if m == 4 {
        "Apr"
    } else if m == 5 {
        "May"
    } else if m == 6 {
        "Jun"
    } else if m == 7 {
        "Jul"
    } else if m == 8 {
        "Aug"
    } else if m == 9 {
        "Sep"
    } else if m == 10 {
        "Oct"
    } else if m == 11 {
        "Nov"
    } else if m == 12 {
        "Dec"
    } else {
        "???"
    }
}

/// Civil date of a day count since the Unix epoch: proleptic Gregorian
/// (year, month, day). A difference that would go negative is floored at
/// zero; for valid day counts the floor is never reached.
pub open spec fn spec_days_to_ymd(days: nat) -> (int, int, int) {
    let z = days + 719468;
    let era = z / 146097;
    let doe = z % 146097;
    let yoe = (doe - doe / 1460 + doe / 36524 - doe / 146096) / 365;
    let y0 = yoe + era * 400;
    let t = 365 * yoe + yoe / 4 - yoe / 100;
    let doy = if t > doe {
        0
    } else {
        doe - t
    };
    let mp = (5 * doy + 2) / 153;
    let dsub = (153 * mp + 2) / 5;
    let d = if dsub > doy {
        1
    } else {
        doy - dsub + 1
    };
    let m = if mp < 10 {
        mp + 3
    } else {
        mp - 9
    };
    let y = if m <= 2 {
        y0 + 1
    } else {
        y0
    };
    (y, m, d)
}

/// Convert a day count since the Unix epoch to a civil (year, month, day).
pub fn days_to_ymd(days: u64) -> (r: (u64, u64, u64))
    requires
        days <= u64::MAX - 719468,
    ensures
        (r.0 as int, r.1 as int, r.2 as int) == spec_days_to_ymd(days as nat),
{
    let z: u64 = days + 719468;
    let era: u64 = z / 146097;
    let doe: u64 = z % 146097;
    proof {
        lemma_mod_bound(z as int, 146097);
        lemma_div_nonincreasing(doe as int, 1460);
        lemma_div_nonincreasing(doe as int, 36524);
        lemma_div_is_ordered_by_denominator(doe as int, 36524, 146096);
    }
    let q: u64 = doe - doe / 1460 + doe / 36524 - doe / 146096;
    let yoe: u64 = q / 365;
    proof {
        lemma_div_nonincreasing(yoe as int, 4);
        lemma_div_nonincreasing(yoe as int, 100);
        lemma_div_nonincreasing(q as int, 365);
        assert(yoe <= q && q < 2 * 146097);
        lemma_div_is_ordered(z as int, u64::MAX as int, 146097);
        assert(u64::MAX as int / 146097 == 126263674638832) by (nonlinear_arith);
        assert(era <= 126263674638832);
    }
    let y0: u64 = yoe + era * 400;
    let t: u64 = 365 * yoe + yoe / 4 - yoe / 100;
    let doy: u64 = if t > doe {
        0
    } else {
        doe - t
    };
    let mp: u64 = (5 * doy + 2) / 153;
    proof {
        lemma_div_nonincreasing((5 * doy + 2) as int, 153);
    }
    let dsub: u64 = (153 * mp + 2) / 5;
    let d: u64 = if dsub > doy {
        1
    } else {
        doy - dsub + 1
    };
    let m: u64 = if mp < 10 {
        mp + 3
    } else {
        mp - 9
    };
    let y: u64 = if m <= 2 {
        y0 + 1
    } else {
        y0
    };
    (y, m, d)
}

/// How a timestamp reads next to the current moment: "unknown" for a missing
/// timestamp, an age in seconds / minutes / hours / days while under a week
/// old, and an absolute civil date with clock time from a week on.
pub open spec fn spec_relative_time(ts: nat, now: nat) -> Seq<char> {
    if ts == 0 {
        "unknown"@
    } else if ts > now {
        "just now"@
    } else {
        let diff = (now - ts) as nat;
        if diff < 60 {
            dec_str(diff) + "s ago"@
        } else if diff < 3600 {
            dec_str(diff / 60) + "m ago"@
        } else if diff < 86400 {
            dec_str(diff / 3600) + "h ago"@
        } else if diff < 604800 {
            dec_str(diff / 86400) + "d ago"@
        } else {
            let ymd = spec_days_to_ymd(ts / 86400);
            let secs = ts % 86400;
            month_name(ymd.1 as nat) + " "@ + dec_str(ymd.2 as nat) + " "@ + dec_str(ymd.0 as nat)
                + " "@ + pad2_str(secs / 3600) + ":"@ + pad2_str(secs % 3600 / 60)
        }
    }
}

/// Render the creation or activity timestamp `ts` relative to the clock
/// reading `now`, both in seconds since the Unix epoch.
pub fn format_relative_time(ts: u64, now: u64) -> (r: String)
    ensures
        r@ == spec_relative_time(ts as nat, now as nat),
{
    if ts == 0 {
        let r = String::from_str("unknown");
        return r;
    }
    if ts > now {
        let r = String::from_str("just now");
        return r;
    }
    let diff = now - ts;
    if diff < 60 {
        let mut s = u64_to_string(diff);
        s.append("s ago");
        proof {
            assert(s@ =~= spec_relative_time(ts as nat, now as nat));
        }
        return s;
    }
    if diff < 3600 {
        let mut s = u64_to_string(diff / 60);
        s.append("m ago");
        proof {
            assert(s@ =~= spec_relative_time(ts as nat, now as nat));
        }
        return s;
    }
    if diff < 86400 {
        let mut s = u64_to_string(diff / 3600);
        s.append("h ago");
        proof {
            assert(s@ =~= spec_relative_time(ts as nat, now as nat));
        }
        return s;
    }
    if diff < 604800 {
        let mut s = u64_to_string(diff / 86400);
        s.append("d ago");
        proof {
            assert(s@ =~= spec_relative_time(ts as nat, now as nat));
        }
        return s;
    }
    proof {
        lemma_div_nonincreasing(ts as int, 86400);
        lemma_mod_bound(ts as int, 86400);
        lemma_div_nonincreasing((ts % 86400) as int, 3600);
        lemma_mod_bound((ts % 86400) as int, 3600);
        lemma_div_nonincreasing((ts % 86400 % 3600) as int, 60);
    }
    let days = ts / 86400;
    let (y, m, d) = days_to_ymd(days);
    let secs = ts % 86400;
    let hour = secs / 3600;
    let minute = secs % 3600 / 60;
    let mut s = String::from_str(month_name_str(m));
    s.append(" ");
    push_dec_u64(&mut s, d);
    s.append(" ");
    push_dec_u64(&mut s, y);
    s.append(" ");
    push_pad2(&mut s, hour);
    s.append(":");
    push_pad2(&mut s, minute);
    proof {
        assert(s@ =~= spec_relative_time(ts as nat, now as nat));
    }
    s
}

/// Position of the first `c` in `s` at or after `from`; `s.len()` if none.
pub open spec fn find_char_from(s: Seq<char>, c: char, from: int) -> int
    decreases s.len() - from,
{
    if from < 0 || from >= s.len() {
        s.len() as int
    } else if s[from] == c {
        from
    } else {
        find_char_from(s, c, from + 1)
    }
}

/// First position of `c` in `s` at or after `from`, or the length of `s`.
fn find_char(s: &str, c: char, from: usize) -> (r: usize)
    requires
        from <= s@.len(),
    ensures
        r == find_char_from(s@, c, from as int),
        from <= r <= s@.len(),
        r < s@.len() ==> s@[r as int] == c,
{
    let n = s.unicode_len();
    let mut i: usize = from;
    while i < n
        invariant
            from <= i <= n,
            n == s@.len(),
            find_char_from(s@, c, from as int) == find_char_from(s@, c, i as int),
        decreases n - i,
    {
        if s.get_char(i) == c {
            return i;
        }
        i = i + 1;
    }
    n
}

/// The middle comma-separated field of a layout descriptor (its leading
/// dimensions), when the descriptor has at least two commas; the whole
/// descriptor otherwise.
pub open spec fn spec_simplify_layout(s: Seq<char>) -> Seq<char> {
    let i = find_char_from(s, ',', 0);
    if i == s.len() {
        s
    } else {
        let j = find_char_from(s, ',', i + 1);
        if j == s.len() {
            s
        } else {
            s.subrange(i + 1, j)
        }
    }
}

/// Reduce a layout descriptor such as `cksum,80x24,0,0,0` to its dimensions
/// field `80x24`; a descriptor without two commas is returned whole.
pub fn simplify_layout(layout: &str) -> (r: String)
    ensures
        r@ == spec_simplify_layout(layout@),
{
    let n = layout.unicode_len();
    let i = find_char(layout, ',', 0);
    if i == n {
        let r = layout.to_owned();
        return r;
    }
    let j = find_char(layout, ',', i + 1);
    if j == n {
        let r = layout.to_owned();
        return r;
    }
    let mid = layout.substring_char(i + 1, j);
    let r = mid.to_owned();
    r
}

/// View of an optional home prefix.
pub open spec fn opt_str_view(s: Option<&str>) -> Option<Seq<char>> {
    match s {
        Some(h) => Some(h@),
        None => Option::<Seq<char>>::None,
    }
}

/// `path` with a known home-directory prefix abbreviated to `~`; unchanged
/// when no home directory is known or `path` lies outside it.
pub open spec fn spec_shorten_path(path: Seq<char>, home: Option<Seq<char>>) -> Seq<char> {
    match home {
        Some(h) => {
            if h.len() <= path.len() && path.subrange(0, h.len() as int) == h {
                "~"@ + path.subrange(h.len() as int, path.len() as int)
            } else {
                path
            }
        },
        None => path,
    }
}

/// Abbreviate the home-directory prefix of a working directory to `~`.
pub fn shorten_path(path: &str, home: Option<&str>) -> (r: String)
    ensures
        r@ == spec_shorten_path(path@, opt_str_view(home)),
{
    match home {
        Some(h) => {
            let hn = h.unicode_len();
            let pn = path.unicode_len();
            if hn > pn {
                let r = path.to_owned();
                return r;
            }
            let mut i: usize = 0;
            while i < hn
                invariant
                    i <= hn <= pn,
                    hn == h@.len(),
                    pn == path@.len(),
                    opt_str_view(home) == Some(h@),
                    forall|k: int| 0 <= k < i ==> path@[k] == h@[k],
                decreases hn - i,
            {
                if path.get_char(i) != h.get_char(i) {
                    proof {
                        assert(path@.subrange(0, hn as int) != h@) by {
                            assert(path@.subrange(0, hn as int)[i as int] != h@[i as int]);
                        }
                    }
                    let r = path.to_owned();
                    return r;
                }
                i = i + 1;
            }
            proof {
                assert(path@.subrange(0, hn as int) =~= h@);
            }
            let mut r = String::from_str("~");
            let rest = path.substring_char(hn, pn);
            r.append(rest);
            r
        },
        None => {
            let r = path.to_owned();
            r
        },
    }
}

} // verus!
