//! Verified parsing of the multiplexer's query output: one record per line,
//! fields separated by `|||`, numeric fields read as decimal with a fallback
//! of zero, short or empty lines skipped.

use vstd::prelude::*;

use crate::model::PaneView;
use crate::model::SessionView;
use crate::model::TmuxPane;
use crate::model::TmuxSession;
use crate::model::TmuxWindow;
use crate::model::WindowView;
use crate::text::push_char;
use vstd::string::StrSliceExecFns;

verus! {

/// `l` with one trailing carriage return removed, as a line ending may be
/// `\r\n` as well as `\n`.
pub open spec fn strip_cr(l: Seq<char>) -> Seq<char> {
    if l.len() > 0 && l.last() == '\r' {
        l.drop_last()
    } else {
        l
    }
}

/// Lines of `s`: split at `\n`, each line stripped of a trailing `\r`, a
/// final line ending optional. `cur` carries the line being read.
pub open spec fn line_split(s: Seq<char>, cur: Seq<char>) -> Seq<Seq<char>>
    decreases s.len(),
{
    if s.len() == 0 {
        if cur.len() == 0 {
            Seq::<Seq<char>>::empty()
        } else {
            seq![strip_cr(cur)]
        }
    } else if s[0] == '\n' {
        seq![strip_cr(cur)] + line_split(s.skip(1), Seq::<char>::empty())
    } else {
        line_split(s.skip(1), cur.push(s[0]))
    }
}

/// The lines of `s`.
pub open spec fn spec_lines(s: Seq<char>) -> Seq<Seq<char>> {
    line_split(s, Seq::<char>::empty())
}

/// The fields of a line: split at each leftmost `|||`, non-overlapping.
/// `cur` carries the field being read; every line has at least one field.
pub open spec fn field_split(s: Seq<char>, cur: Seq<char>) -> Seq<Seq<char>>
    decreases s.len(),
{
    if s.len() < 3 {
        seq![cur + s]
    } else if s[0] == '|' && s[1] == '|' && s[2] == '|' {
        seq![cur] + field_split(s.skip(3), Seq::<char>::empty())
    } else {
        field_split(s.skip(1), cur.push(s[0]))
    }
}

/// The fields of line `l`.
pub open spec fn spec_fields(l: Seq<char>) -> Seq<Seq<char>> {
    field_split(l, Seq::<char>::empty())
}

/// A decimal digit.
pub open spec fn is_digit(c: char) -> bool {
    '0' <= c && c <= '9'
}

pub open spec fn all_digits(s: Seq<char>) -> bool {
    forall|i: int| 0 <= i < s.len() ==> is_digit(#[trigger] s[i])
}

/// Value of a digit string, most significant first.
pub open spec fn digits_val(s: Seq<char>) -> int
    decreases s.len(),
{
    if s.len() == 0 {
        0
    } else {
        digits_val(s.drop_last()) * 10 + (s.last() as int - '0' as int)
    }
}

/// The number a field stands for, read the way the original records were
/// read: an optional leading plus sign, then decimal digits; anything else,
/// an empty field, or a value over `max` falls back to zero.
pub open spec fn parse_uint_or_zero(s: Seq<char>, max: int) -> int {
    let body = if s.len() > 0 && s[0] == '+' {
        s.skip(1)
    } else {
        s
    };
    if body.len() > 0 && all_digits(body) && digits_val(body) <= max {
        digits_val(body)
    } else {
        0
    }
}

proof fn lemma_digits_val_nonneg(s: Seq<char>)
    requires
        all_digits(s),
    ensures
        digits_val(s) >= 0,
    decreases s.len(),
{
    if s.len() > 0 {
        assert(all_digits(s.drop_last())) by {
            assert(forall|i: int| 0 <= i < s.len() - 1 ==> s.drop_last()[i] == s[i]);
        }
        lemma_digits_val_nonneg(s.drop_last());
    }
}

/// A digit string is worth at least any of its prefixes.
proof fn lemma_digits_val_prefix_le(s: Seq<char>, i: int)
    requires
        all_digits(s),
        0 <= i <= s.len(),
    ensures
        digits_val(s.take(i)) <= digits_val(s),
    decreases s.len() - i,
{
    if i < s.len() {
        lemma_digits_val_prefix_le(s, i + 1);
        assert(s.take(i + 1).drop_last() =~= s.take(i));
        assert(s.take(i + 1).last() == s[i]);
        assert(all_digits(s.take(i))) by {
            assert(forall|j: int| 0 <= j < i ==> s.take(i)[j] == s[j]);
        }
        lemma_digits_val_nonneg(s.take(i));
        assert(digits_val(s.take(i)) <= digits_val(s.take(i + 1)));
    } else {
        assert(s.take(i) =~= s);
    }
}

/// Read the digits of `s` from position `start` on, capped at `max`.
/// Returns the value, or 0 on a malformed or over-large field.
fn parse_digits(s: &str, start: usize, max: u64) -> (r: u64)
    requires
        start <= s@.len(),
    ensures
        ({
            let body = s@.skip(start as int);
            r as int == if body.len() > 0 && all_digits(body) && digits_val(body) <= max as int {
                digits_val(body)
            } else {
                0
            }
        }),
{
    let ghost body = s@.skip(start as int);
    let n = s.unicode_len();
    if start == n {
        return 0;
    }
    let mut acc: u128 = 0;
    let mut i: usize = start;
    while i < n
        invariant
            start <= i <= n,
            n == s@.len(),
            start < n,
            body == s@.skip(start as int),
            all_digits(body.take(i - start)),
            acc as int == digits_val(body.take(i - start)),
            acc <= max as u128,
        decreases n - i,
    {
        let c = s.get_char(i);
        if c < '0' || c > '9' {
            assert(!all_digits(body)) by {
                assert(body[i - start] == c);
            }
            return 0;
        }
        let d: u128 = (c as u32 as u128) - ('0' as u32 as u128);
        let next: u128 = acc * 10 + d;
        proof {
            assert(body.take(i - start + 1).drop_last() =~= body.take(i - start));
            assert(body.take(i - start + 1).last() == body[i - start]);
            assert(body[i - start] == c);
        }
        if next > max as u128 {
            proof {
                assert(all_digits(body.take(i - start + 1)));
                if all_digits(body) {
                    lemma_digits_val_prefix_le(body, i - start + 1);
                }
            }
            return 0;
        }
        acc = next;
        i = i + 1;
    }
    proof {
        assert(body.take(n - start) =~= body);
    }
    acc as u64
}

/// Read one numeric field as the original did: `+`-prefixed or bare decimal
/// digits, anything else or out of range becoming zero.
pub fn parse_u64_field(s: &str) -> (r: u64)
    ensures
        r as int == parse_uint_or_zero(s@, u64::MAX as int),
{
    let n = s.unicode_len();
    if n > 0 && s.get_char(0) == '+' {
        parse_digits(s, 1, u64::MAX)
    } else {
        proof {
            assert(s@.skip(0) =~= s@);
        }
        parse_digits(s, 0, u64::MAX)
    }
}

/// The 32-bit counterpart of `parse_u64_field`.
pub fn parse_u32_field(s: &str) -> (r: u32)
    ensures
        r as int == parse_uint_or_zero(s@, u32::MAX as int),
{
    let n = s.unicode_len();
    let r = if n > 0 && s.get_char(0) == '+' {
        parse_digits(s, 1, u32::MAX as u64)
    } else {
        proof {
            assert(s@.skip(0) =~= s@);
        }
        parse_digits(s, 0, u32::MAX as u64)
    };
    r as u32
}

/// A flag field is set unless it reads exactly `0`.
fn nonzero_flag(s: &str) -> (r: bool)
    ensures
        r == (s@ != "0"@),
{
    proof {
        reveal_strlit("0");
    }
    let n = s.unicode_len();
    if n == 1 && s.get_char(0) == '0' {
        proof {
            assert(s@ =~= "0"@);
        }
        false
    } else {
        proof {
            if s@ == "0"@ {
                assert(s@.len() == 1 && s@[0] == '0');
            }
        }
        true
    }
}

/// Split `s` into lines.
fn split_lines(s: &str) -> (r: Vec<String>)
    ensures
        r@.map_values(|l: String| l@) == spec_lines(s@),
{
    let n = s.unicode_len();
    let mut out: Vec<String> = Vec::new();
    let mut cur = String::new();
    let mut i: usize = 0;
    proof {
        assert(s@.skip(0) =~= s@);
        assert(out@.map_values(|l: String| l@) =~= Seq::<Seq<char>>::empty());
        assert(Seq::<Seq<char>>::empty() + spec_lines(s@) =~= spec_lines(s@));
    }
    while i < n
        invariant
            i <= n,
            n == s@.len(),
            spec_lines(s@) == out@.map_values(|l: String| l@) + line_split(
                s@.skip(i as int),
                cur@,
            ),
        decreases n - i,
    {
        let ghost pre_out = out@.map_values(|l: String| l@);
        let c = s.get_char(i);
        proof {
            assert(s@.skip(i as int)[0] == c);
            assert(s@.skip(i as int).skip(1) =~= s@.skip(i + 1));
        }
        if c == '\n' {
            let ghost cur0 = cur@;
            let line = finish_line(cur);
            out.push(line);
            cur = String::new();
            proof {
                assert(out@.map_values(|l: String| l@) =~= pre_out + seq![strip_cr(cur0)]);
                assert((pre_out + seq![strip_cr(cur0)]) + line_split(s@.skip(i + 1), cur@)
                    =~= pre_out + line_split(s@.skip(i as int), cur0));
            }
        } else {
            push_char(&mut cur, c);
        }
        i = i + 1;
    }
    proof {
        assert(s@.skip(n as int) =~= Seq::<char>::empty());
    }
    if !cur.as_str().is_empty() {
        let line = finish_line(cur);
        out.push(line);
        proof {
            assert(out@.map_values(|l: String| l@) =~= spec_lines(s@));
        }
        out
    } else {
        out
    }
}

/// Strip one trailing carriage return from a completed line.
fn finish_line(cur: String) -> (r: String)
    ensures
        r@ == strip_cr(cur@),
{
    let n = cur.as_str().unicode_len();
    if n > 0 && cur.as_str().get_char(n - 1) == '\r' {
        let trimmed = cur.as_str().substring_char(0, n - 1).to_owned();
        proof {
            assert(trimmed@ =~= strip_cr(cur@));
        }
        trimmed
    } else {
        cur
    }
}

/// Split one line into its `|||`-separated fields.
fn split_fields(line: &str) -> (r: Vec<String>)
    ensures
        r@.map_values(|f: String| f@) == spec_fields(line@),
{
    let n = line.unicode_len();
    let mut out: Vec<String> = Vec::new();
    let mut cur = String::new();
    let mut i: usize = 0;
    proof {
        assert(line@.skip(0) =~= line@);
        assert(out@.map_values(|f: String| f@) =~= Seq::<Seq<char>>::empty());
        assert(Seq::<Seq<char>>::empty() + spec_fields(line@) =~= spec_fields(line@));
    }
    while i < n
        invariant
            i <= n,
            n == line@.len(),
            spec_fields(line@) == out@.map_values(|f: String| f@) + field_split(
                line@.skip(i as int),
                cur@,
            ),
        decreases n - i,
    {
        let ghost pre_out = out@.map_values(|f: String| f@);
        let ghost rest = line@.skip(i as int);
        if n - i >= 3 && line.get_char(i) == '|' && line.get_char(i + 1) == '|' && line.get_char(
            i + 2,
        ) == '|' {
            proof {
                assert(rest[0] == '|' && rest[1] == '|' && rest[2] == '|');
                assert(rest.skip(3) =~= line@.skip(i + 3));
            }
            let field = cur;
            out.push(field);
            cur = String::new();
            proof {
                assert(out@.map_values(|f: String| f@) =~= pre_out + seq![field@]);
                assert(out@.map_values(|f: String| f@) + field_split(line@.skip(i + 3), cur@)
                    =~= pre_out + field_split(rest, field@));
            }
            i = i + 3;
        } else {
            let c = line.get_char(i);
            proof {
                assert(rest[0] == c);
                assert(rest.skip(1) =~= line@.skip(i + 1));
                if rest.len() < 3 {
                    assert(cur@ + rest =~= cur@.push(c) + line@.skip(i + 1));
                }
            }
            push_char(&mut cur, c);
            i = i + 1;
        }
    }
    proof {
        assert(line@.skip(n as int) =~= Seq::<char>::empty());
        assert(cur@ + line@.skip(n as int) =~= cur@);
    }
    out.push(cur);
    proof {
        assert(out@.map_values(|f: String| f@) =~= spec_fields(line@));
    }
    out
}

/// The session record one well-formed line stands for.
pub open spec fn session_of_fields(fs: Seq<Seq<char>>) -> SessionView {
    SessionView {
        name: fs[0],
        id: fs[1],
        windows: parse_uint_or_zero(fs[2], u32::MAX as int) as u32,
        attached: fs[3] != "0"@,
        created: parse_uint_or_zero(fs[4], u64::MAX as int) as u64,
        last_activity: parse_uint_or_zero(fs[5], u64::MAX as int) as u64,
    }
}

/// The window record one well-formed line stands for.
pub open spec fn window_of_fields(fs: Seq<Seq<char>>) -> WindowView {
    WindowView {
        name: fs[0],
        index: parse_uint_or_zero(fs[1], u32::MAX as int) as u32,
        id: fs[2],
        active: fs[3] != "0"@,
        panes: parse_uint_or_zero(fs[4], u32::MAX as int) as u32,
        layout: fs[5],
        flags: fs[6],
    }
}

/// The pane record one well-formed line stands for.
pub open spec fn pane_of_fields(fs: Seq<Seq<char>>) -> PaneView {
    PaneView {
        id: fs[0],
        index: parse_uint_or_zero(fs[1], u32::MAX as int) as u32,
        active: fs[2] != "0"@,
        command: fs[3],
        width: parse_uint_or_zero(fs[4], u32::MAX as int) as u32,
        height: parse_uint_or_zero(fs[5], u32::MAX as int) as u32,
        top: parse_uint_or_zero(fs[6], u32::MAX as int) as u32,
        left: parse_uint_or_zero(fs[7], u32::MAX as int) as u32,
        cwd: fs[8],
        pid: parse_uint_or_zero(fs[9], u32::MAX as int) as u32,
    }
}

/// The session records of a sequence of lines: one per non-empty line with
/// at least six fields, in order.
pub open spec fn sessions_of_lines(ls: Seq<Seq<char>>) -> Seq<SessionView>
    decreases ls.len(),
{
    if ls.len() == 0 {
        Seq::<SessionView>::empty()
    } else {
        let rest = sessions_of_lines(ls.drop_last());
        let l = ls.last();
        if l.len() > 0 && spec_fields(l).len() >= 6 {
            rest.push(session_of_fields(spec_fields(l)))
        } else {
            rest
        }
    }
}

/// The window records of a sequence of lines: seven fields wanted.
pub open spec fn windows_of_lines(ls: Seq<Seq<char>>) -> Seq<WindowView>
    decreases ls.len(),
{
    if ls.len() == 0 {
        Seq::<WindowView>::empty()
    } else {
        let rest = windows_of_lines(ls.drop_last());
        let l = ls.last();
        if l.len() > 0 && spec_fields(l).len() >= 7 {
            rest.push(window_of_fields(spec_fields(l)))
        } else {
            rest
        }
    }
}

/// The pane records of a sequence of lines: ten fields wanted.
pub open spec fn panes_of_lines(ls: Seq<Seq<char>>) -> Seq<PaneView>
    decreases ls.len(),
{
    if ls.len() == 0 {
        Seq::<PaneView>::empty()
    } else {
        let rest = panes_of_lines(ls.drop_last());
        let l = ls.last();
        if l.len() > 0 && spec_fields(l).len() >= 10 {
            rest.push(pane_of_fields(spec_fields(l)))
        } else {
            rest
        }
    }
}

/// Parse a session-list query output into session records.
pub fn parse_sessions(output: &str) -> (r: Vec<TmuxSession>)
    ensures
        r@.map_values(|x: TmuxSession| x@) == sessions_of_lines(spec_lines(output@)),
{
    let lines = split_lines(output);
    let ghost lviews = spec_lines(output@);
    let mut out: Vec<TmuxSession> = Vec::new();
    let mut i: usize = 0;
    while i < lines.len()
        invariant
            i <= lines@.len(),
            lines@.map_values(|l: String| l@) == lviews,
            out@.map_values(|x: TmuxSession| x@) == sessions_of_lines(lviews.take(i as int)),
        decreases lines@.len() - i,
    {
        let ghost pre_out = out@.map_values(|x: TmuxSession| x@);
        let line = &lines[i];
        proof {
            assert(line@ == lviews[i as int]);
            assert(lviews.take(i + 1).drop_last() =~= lviews.take(i as int));
            assert(lviews.take(i + 1).last() == lviews[i as int]);
        }
        if !line.as_str().is_empty() {
            let fields = split_fields(line.as_str());
            if fields.len() >= 6 {
                let record = TmuxSession {
                    name: fields[0].clone(),
                    id: fields[1].clone(),
                    windows: parse_u32_field(fields[2].as_str()),
                    attached: nonzero_flag(fields[3].as_str()),
                    created: parse_u64_field(fields[4].as_str()),
                    last_activity: parse_u64_field(fields[5].as_str()),
                };
                proof {
                    assert(record@ == session_of_fields(spec_fields(line@)));
                }
                out.push(record);
                proof {
                    assert(out@.map_values(|x: TmuxSession| x@) =~= pre_out + seq![record@]);
                }
            }
        }
        i = i + 1;
    }
    proof {
        assert(lviews.take(lines@.len() as int) =~= lviews);
    }
    out
}

/// Parse a window-list query output into window records.
pub fn parse_windows(output: &str) -> (r: Vec<TmuxWindow>)
    ensures
        r@.map_values(|x: TmuxWindow| x@) == windows_of_lines(spec_lines(output@)),
{
    let lines = split_lines(output);
    let ghost lviews = spec_lines(output@);
    let mut out: Vec<TmuxWindow> = Vec::new();
    let mut i: usize = 0;
    while i < lines.len()
        invariant
            i <= lines@.len(),
            lines@.map_values(|l: String| l@) == lviews,
            out@.map_values(|x: TmuxWindow| x@) == windows_of_lines(lviews.take(i as int)),
        decreases lines@.len() - i,
    {
        let ghost pre_out = out@.map_values(|x: TmuxWindow| x@);
        let line = &lines[i];
        proof {
            assert(line@ == lviews[i as int]);
            assert(lviews.take(i + 1).drop_last() =~= lviews.take(i as int));
            assert(lviews.take(i + 1).last() == lviews[i as int]);
        }
        if !line.as_str().is_empty() {
            let fields = split_fields(line.as_str());
            if fields.len() >= 7 {
                let record = TmuxWindow {
                    name: fields[0].clone(),
                    index: parse_u32_field(fields[1].as_str()),
                    id: fields[2].clone(),
                    active: nonzero_flag(fields[3].as_str()),
                    panes: parse_u32_field(fields[4].as_str()),
                    layout: fields[5].clone(),
                    flags: fields[6].clone(),
                };
                proof {
                    assert(record@ == window_of_fields(spec_fields(line@)));
                }
                out.push(record);
                proof {
                    assert(out@.map_values(|x: TmuxWindow| x@) =~= pre_out + seq![record@]);
                }
            }
        }
        i = i + 1;
    }
    proof {
        assert(lviews.take(lines@.len() as int) =~= lviews);
    }
    out
}

/// Parse a pane-list query output into pane records.
pub fn parse_panes(output: &str) -> (r: Vec<TmuxPane>)
    ensures
        r@.map_values(|x: TmuxPane| x@) == panes_of_lines(spec_lines(output@)),
{
    let lines = split_lines(output);
    let ghost lviews = spec_lines(output@);
    let mut out: Vec<TmuxPane> = Vec::new();
    let mut i: usize = 0;
    while i < lines.len()
        invariant
            i <= lines@.len(),
            lines@.map_values(|l: String| l@) == lviews,
            out@.map_values(|x: TmuxPane| x@) == panes_of_lines(lviews.take(i as int)),
        decreases lines@.len() - i,
    {
        let ghost pre_out = out@.map_values(|x: TmuxPane| x@);
        let line = &lines[i];
        proof {
            assert(line@ == lviews[i as int]);
            assert(lviews.take(i + 1).drop_last() =~= lviews.take(i as int));
            assert(lviews.take(i + 1).last() == lviews[i as int]);
        }
        if !line.as_str().is_empty() {
            let fields = split_fields(line.as_str());
            if fields.len() >= 10 {
                let record = TmuxPane {
                    id: fields[0].clone(),
                    index: parse_u32_field(fields[1].as_str()),
                    active: nonzero_flag(fields[2].as_str()),
                    command: fields[3].clone(),
                    width: parse_u32_field(fields[4].as_str()),
                    height: parse_u32_field(fields[5].as_str()),
                    top: parse_u32_field(fields[6].as_str()),
                    left: parse_u32_field(fields[7].as_str()),
                    cwd: fields[8].clone(),
                    pid: parse_u32_field(fields[9].as_str()),
                };
                proof {
                    assert(record@ == pane_of_fields(spec_fields(line@)));
                }
                out.push(record);
                proof {
                    assert(out@.map_values(|x: TmuxPane| x@) =~= pre_out + seq![record@]);
                }
            }
        }
        i = i + 1;
    }
    proof {
        assert(lviews.take(lines@.len() as int) =~= lviews);
    }
    out
}

} // verus!
