//! The fallback free-text grammar for tool calls, used when a backend has
//! no structured tool-call protocol: a line starting with `Tool:` names
//! the tool; a following `Inputs:` line begins a block of subsequent
//! lines that are joined, newline-separated, as the raw argument payload,
//! until the next `Tool:` marker or the end of the text. Several blocks
//! in one text yield several calls, in source order.

use vstd::prelude::*;
use vstd::string::*;

use crate::chat::ToolFunction;
use crate::utils::seq_starts_with;

verus! {

/// The text split at every `'\n'`; always at least one (possibly empty) line.
pub open spec fn split_lines(s: Seq<char>) -> Seq<Seq<char>>
    decreases s.len(),
{
    if s.len() == 0 {
        seq![Seq::empty()]
    } else if s[0] == '\n' {
        seq![Seq::<char>::empty()] + split_lines(s.subrange(1, s.len() as int))
    } else {
        let rest = split_lines(s.subrange(1, s.len() as int));
        seq![seq![s[0]] + rest[0]] + rest.subrange(1, rest.len() as int)
    }
}

/// The characters `str::trim` removes: the Unicode white-space set.
pub open spec fn is_space_char(c: char) -> bool {
    c == ' ' || c == '\t' || c == '\n' || c == '\u{b}' || c == '\u{c}' || c == '\r' || c
        == '\u{85}' || c == '\u{a0}' || c == '\u{1680}' || c == '\u{2000}' || c == '\u{2001}'
        || c == '\u{2002}' || c == '\u{2003}' || c == '\u{2004}' || c == '\u{2005}' || c
        == '\u{2006}' || c == '\u{2007}' || c == '\u{2008}' || c == '\u{2009}' || c
        == '\u{200a}' || c == '\u{2028}' || c == '\u{2029}' || c == '\u{202f}' || c
        == '\u{205f}' || c == '\u{3000}'
}

/// The text with the white-space characters at both ends removed.
pub open spec fn trim_spec(s: Seq<char>) -> Seq<char>
    decreases s.len(),
{
    if s.len() == 0 {
        s
    } else if is_space_char(s[0]) {
        trim_spec(s.subrange(1, s.len() as int))
    } else if is_space_char(s[s.len() - 1]) {
        trim_spec(s.subrange(0, s.len() - 1))
    } else {
        s
    }
}

/// The argument lines joined back with single newlines.
pub open spec fn join_nl(parts: Seq<Seq<char>>) -> Seq<char>
    decreases parts.len(),
{
    if parts.len() == 0 {
        Seq::empty()
    } else if parts.len() == 1 {
        parts[0]
    } else {
        join_nl(parts.drop_last()) + seq!['\n'] + parts.last()
    }
}

/// The scanner state: the tool block being gathered, if any — its name,
/// the argument lines seen so far, and whether an `Inputs:` marker has
/// opened the argument block.
pub type ScanState = Option<(Seq<char>, Seq<Seq<char>>, bool)>;

/// A finished block: the tool's name and its joined argument payload.
pub open spec fn flush_state(st: ScanState) -> Seq<(Seq<char>, Seq<char>)> {
    match st {
        None => Seq::empty(),
        Some((name, args, _)) => seq![(name, join_nl(args))],
    }
}

/// One scanner step over a single line.
pub open spec fn scan_step(st: ScanState, line: Seq<char>) -> (Seq<(Seq<char>, Seq<char>)>,
    ScanState,
) {
    if seq_starts_with(line, "Tool:"@) {
        (flush_state(st), Some((trim_spec(line.subrange(5, line.len() as int)), Seq::empty(), false)))
    } else if seq_starts_with(line, "Inputs:"@) {
        match st {
            None => (Seq::empty(), None),
            Some((name, args, _)) => (Seq::empty(), Some((name, args, true))),
        }
    } else {
        match st {
            None => (Seq::empty(), None),
            Some((name, args, parsing)) => if parsing {
                (Seq::empty(), Some((name, args.push(trim_spec(line)), true)))
            } else {
                (Seq::empty(), Some((name, args, false)))
            },
        }
    }
}

/// The scanner over a run of lines: calls emitted so far, in source order,
/// with the open block flushed at the end of the text.
pub open spec fn scan_lines(lines: Seq<Seq<char>>, st: ScanState) -> Seq<(Seq<char>, Seq<char>)>
    decreases lines.len(),
{
    if lines.len() == 0 {
        flush_state(st)
    } else {
        let (emitted, st2) = scan_step(st, lines[0]);
        emitted + scan_lines(lines.subrange(1, lines.len() as int), st2)
    }
}

/// Every tool call the fallback grammar reads out of one text, as
/// (name, raw argument payload) pairs, in source order.
pub open spec fn tool_calls_in_text(text: Seq<char>) -> Seq<(Seq<char>, Seq<char>)> {
    scan_lines(split_lines(text), None)
}

/// The view under which the parser's result is stated.
pub open spec fn call_pairs(fs: Seq<ToolFunction>) -> Seq<(Seq<char>, Seq<char>)> {
    fs.map_values(|f: ToolFunction| (f.name@, f.arguments@))
}

/// Splitting at the first newline, when the run up to it is clean, peels
/// off exactly one line.
proof fn lemma_split_lines_break(s: Seq<char>, k: int)
    requires
        0 <= k < s.len(),
        s[k] == '\n',
        forall|i: int| 0 <= i < k ==> s[i] != '\n',
    ensures
        split_lines(s) == seq![s.subrange(0, k)] + split_lines(s.subrange(k + 1, s.len() as int)),
    decreases k,
{
    if k == 0 {
        assert(s.subrange(0, 0) =~= Seq::<char>::empty());
        assert(split_lines(s) =~= seq![s.subrange(0, 0)] + split_lines(
            s.subrange(1, s.len() as int),
        ));
    } else {
        let t = s.subrange(1, s.len() as int);
        lemma_split_lines_break(t, k - 1);
        assert(t.subrange(0, k - 1) =~= s.subrange(1, k));
        assert(t.subrange(k, t.len() as int) =~= s.subrange(k + 1, s.len() as int));
        lemma_split_lines_nonempty(t);
        let rest = split_lines(t);
        assert(rest == seq![s.subrange(1, k)] + split_lines(s.subrange(k + 1, s.len() as int)));
        assert(rest[0] == s.subrange(1, k));
        assert(seq![s[0]] + rest[0] =~= s.subrange(0, k));
        assert(rest.subrange(1, rest.len() as int) =~= split_lines(
            s.subrange(k + 1, s.len() as int),
        ));
        assert(split_lines(s) =~= seq![s.subrange(0, k)] + split_lines(
            s.subrange(k + 1, s.len() as int),
        ));
    }
}

/// A text with no newline is a single line.
proof fn lemma_split_lines_no_break(s: Seq<char>)
    requires
        forall|i: int| 0 <= i < s.len() ==> s[i] != '\n',
    ensures
        split_lines(s) == seq![s],
    decreases s.len(),
{
    if s.len() == 0 {
        assert(s =~= Seq::<char>::empty());
        assert(split_lines(s) =~= seq![s]);
    } else {
        let t = s.subrange(1, s.len() as int);
        lemma_split_lines_no_break(t);
        assert(seq![s[0]] + t =~= s);
        assert(split_lines(s) =~= seq![s]);
    }
}

proof fn lemma_split_lines_nonempty(s: Seq<char>)
    ensures
        split_lines(s).len() >= 1,
    decreases s.len(),
{
    if s.len() > 0 && s[0] != '\n' {
        lemma_split_lines_nonempty(s.subrange(1, s.len() as int));
    }
}

/// True when `s` begins with the characters of `p`.
pub fn starts_with(s: &str, p: &str) -> (r: bool)
    ensures
        r == seq_starts_with(s@, p@),
{
    let sn = s.unicode_len();
    let pn = p.unicode_len();
    if pn > sn {
        return false;
    }
    let mut i: usize = 0;
    while i < pn
        invariant
            i <= pn,
            pn <= sn,
            sn == s@.len(),
            pn == p@.len(),
            forall|k: int| 0 <= k < i ==> s@[k] == p@[k],
        decreases pn - i,
    {
        if s.get_char(i) != p.get_char(i) {
            assert(!seq_starts_with(s@, p@)) by {
                if seq_starts_with(s@, p@) {
                    assert(s@.subrange(0, p@.len() as int)[i as int] == p@[i as int]);
                }
            }
            return false;
        }
        i += 1;
    }
    assert(s@.subrange(0, p@.len() as int) =~= p@);
    true
}

/// The line with the white-space characters at both ends removed.
pub fn trim(s: &str) -> (r: String)
    ensures
        r@ == trim_spec(s@),
{
    let n = s.unicode_len();
    proof {
        assert(s@.subrange(0, n as int) =~= s@);
    }
    let mut i: usize = 0;
    while i < n && is_space(s.get_char(i))
        invariant
            i <= n,
            n == s@.len(),
            trim_spec(s@) == trim_spec(s@.subrange(i as int, n as int)),
        decreases n - i,
    {
        proof {
            let t = s@.subrange(i as int, n as int);
            assert(t[0] == s@[i as int]);
            assert(t.subrange(1, t.len() as int) =~= s@.subrange(i + 1, n as int));
        }
        i += 1;
    }
    let mut j: usize = n;
    while j > i && is_space(s.get_char(j - 1))
        invariant
            i <= j <= n,
            n == s@.len(),
            trim_spec(s@) == trim_spec(s@.subrange(i as int, j as int)),
            i < n ==> !is_space_char(s@[i as int]),
        decreases j,
    {
        proof {
            let t = s@.subrange(i as int, j as int);
            assert(t[0] == s@[i as int]);
            assert(t[t.len() - 1] == s@[j - 1]);
            assert(t.subrange(0, t.len() - 1) =~= s@.subrange(i as int, j - 1));
        }
        j -= 1;
    }
    let r = s.substring_char(i, j).to_owned();
    proof {
        let t = s@.subrange(i as int, j as int);
        if t.len() > 0 {
            assert(t[0] == s@[i as int]);
            assert(t[t.len() - 1] == s@[j - 1]);
            assert(trim_spec(t) == t);
        }
    }
    r
}

fn is_space(c: char) -> (r: bool)
    ensures
        r == is_space_char(c),
{
    c == ' ' || c == '\t' || c == '\n' || c == '\u{b}' || c == '\u{c}' || c == '\r' || c
        == '\u{85}' || c == '\u{a0}' || c == '\u{1680}' || c == '\u{2000}' || c == '\u{2001}'
        || c == '\u{2002}' || c == '\u{2003}' || c == '\u{2004}' || c == '\u{2005}' || c
        == '\u{2006}' || c == '\u{2007}' || c == '\u{2008}' || c == '\u{2009}' || c
        == '\u{200a}' || c == '\u{2028}' || c == '\u{2029}' || c == '\u{202f}' || c
        == '\u{205f}' || c == '\u{3000}'
}

/// The text split at every newline.
pub fn split_lines_exec(s: &str) -> (r: Vec<String>)
    ensures
        r@.map_values(|l: String| l@) == split_lines(s@),
{
    let n = s.unicode_len();
    proof {
        assert(s@.subrange(0, n as int) =~= s@);
    }
    let mut r: Vec<String> = Vec::new();
    let mut start: usize = 0;
    let mut i: usize = 0;
    while i < n
        invariant
            start <= i <= n,
            n == s@.len(),
            split_lines(s@) == r@.map_values(|l: String| l@) + split_lines(
                s@.subrange(start as int, n as int),
            ),
            forall|k: int| start <= k < i ==> s@[k] != '\n',
        decreases n - i,
    {
        if s.get_char(i) == '\n' {
            let line = s.substring_char(start, i).to_owned();
            let ghost suffix = s@.subrange(start as int, n as int);
            proof {
                lemma_split_lines_break(suffix, i - start);
                assert(suffix.subrange(0, i - start) =~= s@.subrange(start as int, i as int));
                assert(suffix.subrange(i - start + 1, suffix.len() as int) =~= s@.subrange(
                    i + 1,
                    n as int,
                ));
            }
            let ghost r_old = r@;
            r.push(line);
            proof {
                assert(r@.map_values(|l: String| l@) =~= r_old.map_values(|l: String| l@) + seq![
                    s@.subrange(start as int, i as int),
                ]);
            }
            start = i + 1;
        }
        i += 1;
    }
    let last = s.substring_char(start, n).to_owned();
    let ghost suffix = s@.subrange(start as int, n as int);
    proof {
        lemma_split_lines_no_break(suffix);
    }
    let ghost r_old = r@;
    r.push(last);
    proof {
        assert(r@.map_values(|l: String| l@) =~= r_old.map_values(|l: String| l@) + seq![suffix]);
        assert(r@.map_values(|l: String| l@) =~= split_lines(s@));
    }
    r
}

/// The argument lines joined back with single newlines.
fn join_nl_exec(parts: &Vec<String>) -> (r: String)
    ensures
        r@ == join_nl(parts@.map_values(|l: String| l@)),
{
    let ghost ps = parts@.map_values(|l: String| l@);
    let mut r = String::new();
    let n = parts.len();
    let mut k: usize = 0;
    while k < n
        invariant
            k <= n,
            n == parts@.len(),
            ps == parts@.map_values(|l: String| l@),
            r@ == join_nl(ps.subrange(0, k as int)),
        decreases n - k,
    {
        if k > 0 {
            r.append("\n");
            proof {
                reveal_strlit("\n");
                assert("\n"@ =~= seq!['\n']);
            }
        }
        r.append(parts[k].as_str());
        proof {
            let p2 = ps.subrange(0, k + 1);
            assert(p2.drop_last() =~= ps.subrange(0, k as int));
            assert(p2.last() == ps[k as int]);
            assert(r@ =~= join_nl(p2));
        }
        k += 1;
    }
    proof {
        assert(ps.subrange(0, n as int) =~= ps);
    }
    r
}

/// Reads every fallback tool call out of one text, in source order: the
/// parser behind the session's tool-call analysis when the backend sent
/// no structured tool-call list.
pub fn parse_tool_calls(text: &str) -> (r: Vec<ToolFunction>)
    ensures
        call_pairs(r@) == tool_calls_in_text(text@),
{
    let lines = split_lines_exec(text);
    let ghost ls = lines@.map_values(|l: String| l@);
    let mut out: Vec<ToolFunction> = Vec::new();
    let mut cur_name: Option<String> = None;
    let mut cur_args: Vec<String> = Vec::new();
    let mut parsing: bool = false;
    let n = lines.len();
    proof {
        assert(ls.subrange(0, n as int) =~= ls);
        assert(call_pairs(out@) =~= Seq::<(Seq<char>, Seq<char>)>::empty());
        assert(tool_calls_in_text(text@) == call_pairs(out@) + scan_lines(ls, None));
    }
    let mut i: usize = 0;
    while i < n
        invariant
            i <= n,
            n == lines@.len(),
            ls == lines@.map_values(|l: String| l@),
            cur_name is None ==> cur_args@.len() == 0 && !parsing,
            tool_calls_in_text(text@) == call_pairs(out@) + scan_lines(
                ls.subrange(i as int, n as int),
                state_of(cur_name, cur_args@, parsing),
            ),
        decreases n - i,
    {
        let ghost st = state_of(cur_name, cur_args@, parsing);
        let ghost suffix = ls.subrange(i as int, n as int);
        proof {
            assert(suffix[0] == ls[i as int]);
            assert(suffix.subrange(1, suffix.len() as int) =~= ls.subrange(i + 1, n as int));
        }
        let line = &lines[i];
        proof {
            assert(ls[i as int] == lines@[i as int]@);
            assert("Tool:"@.len() == 5) by {
                reveal_strlit("Tool:");
            }
            assert("Inputs:"@.len() == 7) by {
                reveal_strlit("Inputs:");
            }
        }
        if starts_with(line.as_str(), "Tool:") {
            let line_len = line.as_str().unicode_len();
            let name_part = line.as_str().substring_char(5, line_len).to_owned();
            let name = trim(name_part.as_str());
            match cur_name {
                Some(nm) => {
                    let ghost out_old = out@;
                    let args = join_nl_exec(&cur_args);
                    out.push(ToolFunction { name: nm, arguments: args });
                    proof {
                        assert(call_pairs(out@) =~= call_pairs(out_old) + flush_state(st));
                    }
                },
                None => {
                    proof {
                        assert(call_pairs(out@) =~= call_pairs(out@) + flush_state(st));
                    }
                },
            }
            cur_name = Some(name);
            cur_args = Vec::new();
            parsing = false;
            proof {
                assert(seq_starts_with(ls[i as int], "Tool:"@));
                assert(state_of(cur_name, cur_args@, parsing) == Some(
                    (trim_spec(ls[i as int].subrange(5, ls[i as int].len() as int)), Seq::<
                        Seq<char>,
                    >::empty(), false),
                ));
                assert(call_pairs(out@) + scan_lines(
                    ls.subrange(i + 1, n as int),
                    state_of(cur_name, cur_args@, parsing),
                ) =~= tool_calls_in_text(text@));
            }
        } else if starts_with(line.as_str(), "Inputs:") {
            proof {
                assert(!seq_starts_with(ls[i as int], "Tool:"@));
                assert(seq_starts_with(ls[i as int], "Inputs:"@));
            }
            match &cur_name {
                Some(_) => {
                    parsing = true;
                },
                None => {},
            }
            proof {
                assert(call_pairs(out@) + scan_lines(
                    ls.subrange(i + 1, n as int),
                    state_of(cur_name, cur_args@, parsing),
                ) =~= tool_calls_in_text(text@));
            }
        } else {
            proof {
                assert(!seq_starts_with(ls[i as int], "Tool:"@));
                assert(!seq_starts_with(ls[i as int], "Inputs:"@));
            }
            if parsing {
                let ghost args_old = cur_args@;
                let trimmed = trim(line.as_str());
                cur_args.push(trimmed);
                proof {
                    assert(cur_args@.map_values(|l: String| l@) =~= args_old.map_values(
                        |l: String| l@,
                    ).push(trim_spec(ls[i as int])));
                }
            }
            proof {
                assert(call_pairs(out@) + scan_lines(
                    ls.subrange(i + 1, n as int),
                    state_of(cur_name, cur_args@, parsing),
                ) =~= tool_calls_in_text(text@));
            }
        }
        i += 1;
    }
    let ghost st_end = state_of(cur_name, cur_args@, parsing);
    proof {
        assert(ls.subrange(n as int, n as int) =~= Seq::<Seq<char>>::empty());
        assert(tool_calls_in_text(text@) == call_pairs(out@) + flush_state(st_end));
    }
    match cur_name {
        Some(nm) => {
            let ghost out_old = out@;
            let args = join_nl_exec(&cur_args);
            out.push(ToolFunction { name: nm, arguments: args });
            proof {
                assert(call_pairs(out@) =~= call_pairs(out_old) + flush_state(st_end));
            }
        },
        None => {
            proof {
                assert(call_pairs(out@) + flush_state(st_end) =~= call_pairs(out@));
            }
        },
    }
    out
}

/// The scanner state the executable loop is in.
pub open spec fn state_of(name: Option<String>, args: Seq<String>, parsing: bool) -> ScanState {
    match name {
        None => None,
        Some(nm) => Some((nm@, args.map_values(|l: String| l@), parsing)),
    }
}

} // verus!
