use vstd::prelude::*;
use vstd::string::StrSliceExecFns;

use crate::text::{push_char, trim, trimmed};

verus! {

/// The position of the first `c` in `s`, or the length of `s` when there is none.
pub open spec fn find_char(s: Seq<char>, c: char) -> nat
    decreases s.len(),
{
    if s.len() == 0 {
        0
    } else if s[0] == c {
        0
    } else {
        1 + find_char(s.drop_first(), c)
    }
}

/// The lines of `s` as `str::lines` gives them: split after each `\n`, with the
/// `\n` and a `\r` right before it removed; no empty last line after a final `\n`.
pub open spec fn lines_of(s: Seq<char>) -> Seq<Seq<char>>
    decreases s.len(),
{
    if s.len() == 0 {
        Seq::empty()
    } else {
        let k = find_char(s, '\n');
        if k < s.len() {
            let line = s.take(k as int);
            let line = if line.len() > 0 && line.last() == '\r' {
                line.drop_last()
            } else {
                line
            };
            seq![line] + lines_of(s.skip((k + 1) as int))
        } else {
            seq![s]
        }
    }
}

/// The position of the last `" : "` in `s`, if any.
pub open spec fn last_separator(s: Seq<char>) -> Option<nat>
    decreases s.len(),
{
    if s.len() < 3 {
        None
    } else if s[s.len() - 3] == ' ' && s[s.len() - 2] == ':' && s[s.len() - 1] == ' ' {
        Some((s.len() - 3) as nat)
    } else {
        last_separator(s.drop_last())
    }
}

/// The drive a line of `cdrdao scanbus` output describes, as (device, vendor,
/// model). The device is what stands before the last `" : "`; the rest after it,
/// trimmed, is either "VENDOR, Model, Version" (vendor and model trimmed) or
/// "Vendor Model" split at the first space. Lines that fit neither describe no drive.
pub open spec fn parse_drive_line(line: Seq<char>) -> Option<(Seq<char>, Seq<char>, Seq<char>)> {
    match last_separator(line) {
        None => None,
        Some(p) => {
            let device = trim(line.take(p as int));
            let rest = trim(line.skip((p + 3) as int));
            let comma = find_char(rest, ',');
            if comma < rest.len() {
                let after = rest.skip((comma + 1) as int);
                Some(
                    (
                        device,
                        trim(rest.take(comma as int)),
                        trim(after.take(find_char(after, ',') as int)),
                    ),
                )
            } else {
                let space = find_char(rest, ' ');
                if space < rest.len() {
                    Some((device, rest.take(space as int), rest.skip((space + 1) as int)))
                } else {
                    None
                }
            }
        },
    }
}

/// The drives the lines describe, in order.
pub open spec fn drives_of_lines(lines: Seq<Seq<char>>) -> Seq<(Seq<char>, Seq<char>, Seq<char>)>
    decreases lines.len(),
{
    if lines.len() == 0 {
        Seq::empty()
    } else {
        (match parse_drive_line(lines[0]) {
            Some(d) => seq![d],
            None => Seq::empty(),
        }) + drives_of_lines(lines.drop_first())
    }
}

/// The drives listed in `cdrdao scanbus` output.
pub open spec fn scanbus_drives(s: Seq<char>) -> Seq<(Seq<char>, Seq<char>, Seq<char>)> {
    drives_of_lines(lines_of(s))
}

/// CD drive information.
#[derive(Debug)]
pub struct CdDrive {
    pub device: String,
    pub vendor: String,
    pub model: String,
}

/// The views of a list of drives.
pub open spec fn drive_views(v: Seq<CdDrive>) -> Seq<(Seq<char>, Seq<char>, Seq<char>)> {
    v.map_values(|d: CdDrive| (d.device@, d.vendor@, d.model@))
}

/// The characters of `s`, one by one.
pub fn chars_of(s: &str) -> (v: Vec<char>)
    ensures
        v@ == s@,
{
    let n = s.unicode_len();
    let mut v: Vec<char> = Vec::new();
    let mut i: usize = 0;
    while i < n
        invariant
            n == s@.len(),
            i <= n,
            v@ == s@.take(i as int),
        decreases n - i,
    {
        v.push(s.get_char(i));
        assert(s@.take(i + 1) =~= s@.take(i as int).push(s@[i as int]));
        i = i + 1;
    }
    assert(s@.take(n as int) =~= s@);
    v
}

/// A string of the characters of `v` in `lo..hi`.
pub fn string_of(v: &Vec<char>, lo: usize, hi: usize) -> (s: String)
    requires
        lo <= hi <= v@.len(),
    ensures
        s@ == v@.subrange(lo as int, hi as int),
{
    let mut s = String::new();
    let mut i = lo;
    while i < hi
        invariant
            lo <= i <= hi <= v@.len(),
            s@ == v@.subrange(lo as int, i as int),
        decreases hi - i,
    {
        push_char(&mut s, v[i]);
        assert(v@.subrange(lo as int, i + 1) =~= v@.subrange(lo as int, i as int).push(v@[i as int]));
        i = i + 1;
    }
    s
}

/// The position of the first `c` in `v` within `lo..hi`, or `hi`.
pub fn find_in(v: &Vec<char>, lo: usize, hi: usize, c: char) -> (k: usize)
    requires
        lo <= hi <= v@.len(),
    ensures
        lo <= k <= hi,
        k == lo + find_char(v@.subrange(lo as int, hi as int), c),
{
    let mut k = lo;
    while k < hi && v[k] != c
        invariant
            lo <= k <= hi <= v@.len(),
            find_char(v@.subrange(lo as int, hi as int), c) == (k - lo) + find_char(
                v@.subrange(k as int, hi as int),
                c,
            ),
        decreases hi - k,
    {
        assert(v@.subrange(k as int, hi as int).drop_first() =~= v@.subrange(k + 1, hi as int));
        k = k + 1;
    }
    k
}

/// The position of the last `" : "` in `v` within `lo..hi`, if any.
fn last_separator_in(v: &Vec<char>, lo: usize, hi: usize) -> (r: Option<usize>)
    requires
        lo <= hi <= v@.len(),
    ensures
        match last_separator(v@.subrange(lo as int, hi as int)) {
            Some(p) => r is Some && r->Some_0 == lo + p,
            None => r is None,
        },
{
    let mut j = hi;
    while j - lo >= 3
        invariant
            lo <= j <= hi <= v@.len(),
            last_separator(v@.subrange(lo as int, hi as int)) == last_separator(
                v@.subrange(lo as int, j as int),
            ),
        decreases j,
    {
        let ghost t = v@.subrange(lo as int, j as int);
        if v[j - 3] == ' ' && v[j - 2] == ':' && v[j - 1] == ' ' {
            assert(t[t.len() - 3] == v@[j - 3]);
            assert(t[t.len() - 2] == v@[j - 2]);
            assert(t[t.len() - 1] == v@[j - 1]);
            return Some(j - 3);
        }
        assert(t[t.len() - 3] == v@[j - 3]);
        assert(t[t.len() - 2] == v@[j - 2]);
        assert(t[t.len() - 1] == v@[j - 1]);
        assert(t.drop_last() =~= v@.subrange(lo as int, j - 1));
        j = j - 1;
    }
    None
}

/// The drive a line (the characters of `v` in `lo..hi`) describes, if any.
fn parse_drive_line_in(v: &Vec<char>, lo: usize, hi: usize) -> (r: Option<CdDrive>)
    requires
        lo <= hi <= v@.len(),
    ensures
        match parse_drive_line(v@.subrange(lo as int, hi as int)) {
            Some(d) => r matches Some(x) && (x.device@, x.vendor@, x.model@) == d,
            None => r is None,
        },
{
    let ghost line = v@.subrange(lo as int, hi as int);
    let p = match last_separator_in(v, lo, hi) {
        None => {
            return None;
        },
        Some(p) => p,
    };
    proof {
        let q = last_separator(line)->Some_0;
        assert(p == lo + q);
        lemma_last_separator_bound(line);
    }
    assert(line.take((p - lo) as int) =~= v@.subrange(lo as int, p as int));
    assert(line.skip((p - lo) + 3) =~= v@.subrange(p + 3, hi as int));
    let device = trimmed(string_of(v, lo, p).as_str());
    let rest_s = trimmed(string_of(v, p + 3, hi).as_str());
    let rest = chars_of(rest_s.as_str());
    let n = rest.len();
    assert(rest@.subrange(0, n as int) =~= rest@);
    let comma = find_in(&rest, 0, n, ',');
    if comma < n {
        let second = find_in(&rest, comma + 1, n, ',');
        assert(rest@.skip((comma + 1) as int) =~= rest@.subrange(comma + 1, n as int));
        let vendor = trimmed(string_of(&rest, 0, comma).as_str());
        let model = trimmed(string_of(&rest, comma + 1, second).as_str());
        assert(rest@.take(comma as int) =~= rest@.subrange(0, comma as int));
        assert(rest@.skip((comma + 1) as int).take(second - (comma + 1)) =~= rest@.subrange(
            comma + 1,
            second as int,
        ));
        Some(CdDrive { device, vendor, model })
    } else {
        let space = find_in(&rest, 0, n, ' ');
        if space < n {
            let vendor = string_of(&rest, 0, space);
            let model = string_of(&rest, space + 1, n);
            assert(rest@.take(space as int) =~= rest@.subrange(0, space as int));
            assert(rest@.skip((space + 1) as int) =~= rest@.subrange(space + 1, n as int));
            Some(CdDrive { device, vendor, model })
        } else {
            None
        }
    }
}

/// The separator found by `last_separator` lies inside the sequence.
proof fn lemma_last_separator_bound(s: Seq<char>)
    ensures
        last_separator(s) matches Some(p) ==> p + 3 <= s.len(),
    decreases s.len(),
{
    if s.len() >= 3 {
        lemma_last_separator_bound(s.drop_last());
    }
}

/// The lines of a sequence after the first line break are the lines of what
/// follows it.
proof fn lemma_drives_cons(line: Seq<char>, rest: Seq<Seq<char>>)
    ensures
        drives_of_lines(seq![line] + rest) == (match parse_drive_line(line) {
            Some(d) => seq![d],
            None => Seq::empty(),
        }) + drives_of_lines(rest),
{
    assert((seq![line] + rest).drop_first() =~= rest);
    assert((seq![line] + rest)[0] == line);
}

/// Parse `cdrdao scanbus` output into the drives it lists.
pub fn parse_scanbus(output: &str) -> (drives: Vec<CdDrive>)
    ensures
        drive_views(drives@) == scanbus_drives(output@),
{
    let v = chars_of(output);
    let n = v.len();
    let mut drives: Vec<CdDrive> = Vec::new();
    let mut pos: usize = 0;
    assert(v@.skip(0) =~= v@);
    while pos < n
        invariant
            n == v@.len(),
            pos <= n,
            v@ == output@,
            scanbus_drives(output@) == drive_views(drives@) + drives_of_lines(
                lines_of(v@.skip(pos as int)),
            ),
        decreases n - pos,
    {
        let ghost t = v@.skip(pos as int);
        let e = find_in(&v, pos, n, '\n');
        assert(v@.subrange(pos as int, n as int) =~= t);
        let mut end = e;
        if e < n && e > pos && v[e - 1] == '\r' {
            end = e - 1;
        }
        let parsed = parse_drive_line_in(&v, pos, end);
        let ghost before = drive_views(drives@);
        proof {
            let k = find_char(t, '\n');
            assert(k == e - pos);
            let raw = t.take(k as int);
            assert(raw =~= v@.subrange(pos as int, e as int));
            if k < t.len() {
                let line = if raw.len() > 0 && raw.last() == '\r' {
                    raw.drop_last()
                } else {
                    raw
                };
                assert(line =~= v@.subrange(pos as int, end as int));
                assert(t.skip((k + 1) as int) =~= v@.skip(e + 1));
                assert(lines_of(t) == seq![line] + lines_of(t.skip((k + 1) as int)));
                lemma_drives_cons(line, lines_of(t.skip((k + 1) as int)));
            } else {
                assert(raw =~= t);
                assert(lines_of(t) == seq![t]);
                assert(t =~= v@.subrange(pos as int, end as int));
                lemma_drives_cons(t, Seq::empty());
                assert(seq![t] + Seq::<Seq<char>>::empty() =~= seq![t]);
            }
        }
        match parsed {
            Some(d) => {
                drives.push(d);
                assert(drive_views(drives@) =~= before + seq![
                    (drives@.last().device@, drives@.last().vendor@, drives@.last().model@),
                ]);
            },
            None => {},
        }
        if e < n {
            pos = e + 1;
        } else {
            proof {
                assert(v@.skip(n as int) =~= Seq::<char>::empty());
            }
            pos = n;
        }
    }
    assert(v@.skip(n as int) =~= Seq::<char>::empty());
    drives
}

/// The first line of `s`, if it has any lines.
pub open spec fn first_line(s: Seq<char>) -> Option<Seq<char>> {
    if lines_of(s).len() == 0 {
        None
    } else {
        Some(lines_of(s)[0])
    }
}

/// The first line of `s`, or `None` for a string with no lines.
pub fn first_line_of(s: &str) -> (r: Option<String>)
    ensures
        match first_line(s@) {
            Some(l) => r matches Some(x) && x@ == l,
            None => r is None,
        },
{
    let v = chars_of(s);
    let n = v.len();
    if n == 0 {
        return None;
    }
    let e = find_in(&v, 0, n, '\n');
    assert(v@.subrange(0, n as int) =~= v@);
    let mut end = e;
    if e < n && e > 0 && v[e - 1] == '\r' {
        end = e - 1;
    }
    proof {
        let k = find_char(v@, '\n');
        let raw = v@.take(k as int);
        assert(raw =~= v@.subrange(0, e as int));
        if k < v@.len() {
            let line = if raw.len() > 0 && raw.last() == '\r' {
                raw.drop_last()
            } else {
                raw
            };
            assert(line =~= v@.subrange(0, end as int));
        } else {
            assert(v@.subrange(0, end as int) =~= v@);
        }
    }
    Some(string_of(&v, 0, end))
}

} // verus!
