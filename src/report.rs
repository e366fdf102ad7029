//! The text of the evaluator: joining the sample lines, and the report of
//! every match and its capture groups.
use vstd::prelude::*;
use crate::buffer::lines_of;
use crate::engine::{opt_texts, match_texts};

verus! {

/// The decimal digit for `d`.
pub open spec fn digit_char(d: nat) -> char {
    if d == 0 {
        '0'
    } else if d == 1 {
        '1'
    } else if d == 2 {
        '2'
    } else if d == 3 {
        '3'
    } else if d == 4 {
        '4'
    } else if d == 5 {
        '5'
    } else if d == 6 {
        '6'
    } else if d == 7 {
        '7'
    } else if d == 8 {
        '8'
    } else {
        '9'
    }
}

/// `n` written in decimal, without leading zeros.
pub open spec fn decimal(n: nat) -> Seq<char>
    decreases n,
{
    if n < 10 {
        seq![digit_char(n)]
    } else {
        decimal(n / 10).push(digit_char(n % 10))
    }
}

/// The lines joined into one text, a line feed between each two.
pub open spec fn joined(lines: Seq<Seq<char>>) -> Seq<char>
    decreases lines.len(),
{
    if lines.len() <= 1 {
        if lines.len() == 0 {
            Seq::empty()
        } else {
            lines[0]
        }
    } else {
        joined(lines.drop_last()) + seq!['\n'] + lines.last()
    }
}

/// The label of group `j`: its name where it has one, else its index.
pub open spec fn group_label(names: Seq<Option<Seq<char>>>, j: int) -> Seq<char> {
    if 0 <= j < names.len() && names[j] is Some {
        names[j]->Some_0
    } else {
        decimal(j as nat)
    }
}

/// The report line of one group: two spaces, its label, a colon, a space and
/// the text it captured.
pub open spec fn group_line(label: Seq<char>, text: Seq<char>) -> Seq<char> {
    seq![' ', ' '] + label + seq![':', ' '] + text
}

/// The report lines of the first `k` groups of one match; a group that took
/// no part in the match has no line.
pub open spec fn group_lines(
    names: Seq<Option<Seq<char>>>,
    groups: Seq<Option<Seq<char>>>,
    k: int,
) -> Seq<Seq<char>>
    decreases k,
{
    if k <= 0 {
        Seq::empty()
    } else {
        let prev = group_lines(names, groups, k - 1);
        match groups[k - 1] {
            Some(t) => prev.push(group_line(group_label(names, k - 1), t)),
            None => prev,
        }
    }
}

/// The header line of match `i`: its index and a full stop.
pub open spec fn match_header(i: nat) -> Seq<char> {
    decimal(i).push('.')
}

/// The section of match `i`: its header, then the lines of its groups.
pub open spec fn match_section(
    names: Seq<Option<Seq<char>>>,
    groups: Seq<Option<Seq<char>>>,
    i: nat,
) -> Seq<Seq<char>> {
    seq![match_header(i)] + group_lines(names, groups, groups.len() as int)
}

/// The sections of the first `k` matches.
pub open spec fn sections(
    names: Seq<Option<Seq<char>>>,
    matches: Seq<Seq<Option<Seq<char>>>>,
    k: int,
) -> Seq<Seq<char>>
    decreases k,
{
    if k <= 0 {
        Seq::empty()
    } else {
        sections(names, matches, k - 1) + match_section(names, matches[k - 1], (k - 1) as nat)
    }
}

/// The whole report: an empty first line, then the section of each match.
pub open spec fn report(
    names: Seq<Option<Seq<char>>>,
    matches: Seq<Seq<Option<Seq<char>>>>,
) -> Seq<Seq<char>> {
    seq![Seq::<char>::empty()] + sections(names, matches, matches.len() as int)
}

fn digit(d: usize) -> (c: char)
    requires
        d < 10,
    ensures
        c == digit_char(d as nat),
{
    if d == 0 {
        '0'
    } else if d == 1 {
        '1'
    } else if d == 2 {
        '2'
    } else if d == 3 {
        '3'
    } else if d == 4 {
        '4'
    } else if d == 5 {
        '5'
    } else if d == 6 {
        '6'
    } else if d == 7 {
        '7'
    } else if d == 8 {
        '8'
    } else {
        '9'
    }
}

/// `n` in decimal.
pub fn decimal_of(n: usize) -> (r: Vec<char>)
    ensures
        r@ == decimal(n as nat),
    decreases n,
{
    if n < 10 {
        let mut r: Vec<char> = Vec::new();
        r.push(digit(n));
        assert(r@ =~= seq![digit_char(n as nat)]);
        r
    } else {
        let mut r = decimal_of(n / 10);
        r.push(digit(n % 10));
        r
    }
}

/// Appends the characters of `src` to `dst`.
fn append_chars(dst: &mut Vec<char>, src: &Vec<char>)
    ensures
        final(dst)@ == old(dst)@ + src@,
{
    let mut i: usize = 0;
    while i < src.len()
        invariant
            i <= src@.len(),
            dst@ == old(dst)@ + src@.subrange(0, i as int),
        decreases src@.len() - i,
    {
        dst.push(src[i]);
        i = i + 1;
        assert(dst@ =~= old(dst)@ + src@.subrange(0, i as int));
    }
    assert(src@.subrange(0, src@.len() as int) =~= src@);
}

/// The lines joined into one text, with a line feed between each two.
pub fn join_lines(lines: &Vec<Vec<char>>) -> (r: Vec<char>)
    ensures
        r@ == joined(lines_of(lines@)),
{
    let mut r: Vec<char> = Vec::new();
    let mut i: usize = 0;
    while i < lines.len()
        invariant
            i <= lines@.len(),
            r@ == joined(lines_of(lines@).subrange(0, i as int)),
        decreases lines@.len() - i,
    {
        proof {
            let next = lines_of(lines@).subrange(0, i + 1);
            assert(next.drop_last() =~= lines_of(lines@).subrange(0, i as int));
        }
        if i > 0 {
            r.push('\n');
        }
        append_chars(&mut r, &lines[i]);
        i = i + 1;
        proof {
            let cur = lines_of(lines@).subrange(0, i as int);
            if i == 1 {
                assert(r@ =~= cur[0]);
            } else {
                assert(r@ =~= joined(cur.drop_last()) + seq!['\n'] + cur.last());
            }
        }
    }
    assert(lines_of(lines@).subrange(0, lines@.len() as int) =~= lines_of(lines@));
    r
}

/// The report line of a group with the given label and text.
fn make_group_line(label: &Vec<char>, text: &Vec<char>) -> (r: Vec<char>)
    ensures
        r@ == group_line(label@, text@),
{
    let mut r: Vec<char> = Vec::new();
    r.push(' ');
    r.push(' ');
    append_chars(&mut r, label);
    r.push(':');
    r.push(' ');
    append_chars(&mut r, text);
    assert(r@ =~= group_line(label@, text@));
    r
}

/// The report of the matches of a pattern with the given group names: an
/// empty line, then for match `i` a line `i.` followed by one line
/// `  label: text` for each group that took part, labelled by its name where
/// it has one and by its index otherwise.
pub fn format_report(names: &Vec<Option<Vec<char>>>, matches: &Vec<Vec<Option<Vec<char>>>>) -> (r:
    Vec<Vec<char>>)
    ensures
        lines_of(r@) == report(opt_texts(names@), match_texts(matches@)),
{
    let ghost nv = opt_texts(names@);
    let ghost mv = match_texts(matches@);
    let mut out: Vec<Vec<char>> = Vec::new();
    out.push(Vec::new());
    assert(lines_of(out@) =~= seq![Seq::<char>::empty()] + sections(nv, mv, 0));
    let mut i: usize = 0;
    while i < matches.len()
        invariant
            i <= matches@.len(),
            nv == opt_texts(names@),
            mv == match_texts(matches@),
            lines_of(out@) == seq![Seq::<char>::empty()] + sections(nv, mv, i as int),
        decreases matches@.len() - i,
    {
        let groups = &matches[i];
        let ghost gv = mv[i as int];
        assert(gv == opt_texts(groups@));
        let ghost before = lines_of(out@);
        let mut header = decimal_of(i);
        header.push('.');
        out.push(header);
        assert(lines_of(out@) =~= before + seq![match_header(i as nat)] + group_lines(nv, gv, 0));
        let mut j: usize = 0;
        while j < groups.len()
            invariant
                i < matches@.len(),
                j <= groups@.len(),
                gv == opt_texts(groups@),
                nv == opt_texts(names@),
                lines_of(out@) == before + seq![match_header(i as nat)] + group_lines(
                    nv,
                    gv,
                    j as int,
                ),
            decreases groups@.len() - j,
        {
            let ghost prev = lines_of(out@);
            match &groups[j] {
                Some(t) => {
                    let label = if j < names.len() && names[j].is_some() {
                        match &names[j] {
                            Some(n) => n.clone(),
                            None => decimal_of(j),
                        }
                    } else {
                        decimal_of(j)
                    };
                    assert(label@ == group_label(nv, j as int));
                    let line = make_group_line(&label, t);
                    out.push(line);
                    assert(lines_of(out@) =~= prev.push(line@));
                },
                None => {},
            }
            j = j + 1;
        }
        i = i + 1;
        assert(lines_of(out@) =~= seq![Seq::<char>::empty()] + sections(nv, mv, i as int));
    }
    out
}

} // verus!
