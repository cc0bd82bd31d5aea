//! Plain text helpers over `str`, each with a specification over `Seq<char>`.
use vstd::prelude::*;

verus! {

/// `p` is a prefix of `s`.
pub open spec fn has_prefix(s: Seq<char>, p: Seq<char>) -> bool {
    p.len() <= s.len() && s.subrange(0, p.len() as int) == p
}

/// Index of the last occurrence of `c` in `s`, if any.
pub open spec fn last_index_of(s: Seq<char>, c: char) -> Option<int>
    decreases s.len(),
{
    if s.len() == 0 {
        None
    } else if s.last() == c {
        Some(s.len() - 1)
    } else {
        last_index_of(s.drop_last(), c)
    }
}

/// `s` equals `t`, character for character.
pub fn same_text(s: &str, t: &str) -> (r: bool)
    ensures
        r == (s@ == t@),
{
    let n = s.unicode_len();
    let m = t.unicode_len();
    if n != m {
        return false;
    }
    let mut i: usize = 0;
    while i < n
        invariant
            n == s@.len(),
            m == t@.len(),
            n == m,
            i <= n,
            s@.subrange(0, i as int) == t@.subrange(0, i as int),
        decreases n - i,
    {
        if s.get_char(i) != t.get_char(i) {
            return false;
        }
        assert(s@.subrange(0, i + 1) == s@.subrange(0, i as int).push(s@[i as int]));
        assert(t@.subrange(0, i + 1) == t@.subrange(0, i as int).push(t@[i as int]));
        i = i + 1;
    }
    assert(s@ == s@.subrange(0, n as int));
    assert(t@ == t@.subrange(0, n as int));
    true
}

/// `s` begins with `p`.
pub fn starts_with(s: &str, p: &str) -> (r: bool)
    ensures
        r == has_prefix(s@, p@),
{
    let n = s.unicode_len();
    let m = p.unicode_len();
    if m > n {
        return false;
    }
    let head = s.substring_char(0, m);
    same_text(head, p)
}

/// Position of the last `c` in `s`.
pub fn rfind_char(s: &str, c: char) -> (r: Option<usize>)
    ensures
        match r {
            Some(i) => i < s@.len() && last_index_of(s@, c) == Some(i as int),
            None => last_index_of(s@, c) is None,
        },
{
    let n = s.unicode_len();
    let mut i: usize = n;
    assert(s@.subrange(0, n as int) == s@);
    while i > 0
        invariant
            n == s@.len(),
            i <= n,
            last_index_of(s@, c) == last_index_of(s@.subrange(0, i as int), c),
        decreases i,
    {
        let ch = s.get_char(i - 1);
        assert(s@.subrange(0, i - 1) == s@.subrange(0, i as int).drop_last());
        if ch == c {
            return Some(i - 1);
        }
        i = i - 1;
    }
    None
}


/// Scans `t` left to right: the lines finished by a `'\n'` so far, and the
/// unfinished text after the last `'\n'`.
pub open spec fn split_step(t: Seq<char>) -> (Seq<Seq<char>>, Seq<char>)
    decreases t.len(),
{
    if t.len() == 0 {
        (Seq::empty(), Seq::empty())
    } else {
        let (done, cur) = split_step(t.drop_last());
        if t.last() == '\n' {
            (done.push(cur), Seq::empty())
        } else {
            (done, cur.push(t.last()))
        }
    }
}

/// The lines of `t`: the pieces between line breaks, where a final line break
/// ends the last line and opens no new one.
pub open spec fn lines_of(t: Seq<char>) -> Seq<Seq<char>> {
    let (done, cur) = split_step(t);
    if cur.len() == 0 {
        done
    } else {
        done.push(cur)
    }
}

/// Each line followed by a line break, in order.
pub open spec fn joined_lines(ls: Seq<Seq<char>>) -> Seq<char>
    decreases ls.len(),
{
    if ls.len() == 0 {
        Seq::empty()
    } else {
        joined_lines(ls.drop_last()) + ls.last() + seq!['\n']
    }
}

/// No line break occurs in `s`.
pub open spec fn single_line(s: Seq<char>) -> bool {
    forall|i: int| 0 <= i < s.len() ==> s[i] != '\n'
}

proof fn lemma_split_within_line(a: Seq<char>, b: Seq<char>)
    requires
        split_step(a).1 == Seq::<char>::empty(),
        single_line(b),
    ensures
        split_step(a + b) == (split_step(a).0, b),
    decreases b.len(),
{
    if b.len() == 0 {
        assert(a + b == a);
    } else {
        lemma_split_within_line(a, b.drop_last());
        assert((a + b).drop_last() == a + b.drop_last());
        assert(b.drop_last().push(b.last()) == b);
    }
}

/// Splitting joined lines gives the lines back, when none holds a line break.
pub proof fn lemma_lines_of_joined(ls: Seq<Seq<char>>)
    requires
        forall|i: int| 0 <= i < ls.len() ==> single_line(#[trigger] ls[i]),
    ensures
        split_step(joined_lines(ls)) == (ls, Seq::<char>::empty()),
        lines_of(joined_lines(ls)) == ls,
    decreases ls.len(),
{
    if ls.len() > 0 {
        let init = ls.drop_last();
        assert forall|i: int| 0 <= i < init.len() implies single_line(#[trigger] init[i]) by {
            assert(init[i] == ls[i]);
        }
        lemma_lines_of_joined(init);
        let a = joined_lines(init);
        assert(single_line(ls[ls.len() - 1]));
        lemma_split_within_line(a, ls.last());
        let t = joined_lines(ls);
        assert(t == (a + ls.last()) + seq!['\n']);
        assert(t.drop_last() == a + ls.last());
        assert(init.push(ls.last()) == ls);
    }
}

/// Cuts `t` into its lines (see `lines_of`).
pub fn split_lines(t: &str) -> (r: Vec<String>)
    ensures
        r@.map_values(|s: String| s@) == lines_of(t@),
{
    let n = t.unicode_len();
    let mut out: Vec<String> = Vec::new();
    let mut start: usize = 0;
    let mut i: usize = 0;
    assert(t@.subrange(0, 0) == Seq::<char>::empty());
    while i < n
        invariant
            n == t@.len(),
            start <= i <= n,
            split_step(t@.subrange(0, i as int)) == (
            out@.map_values(|s: String| s@),
            t@.subrange(start as int, i as int),
            ),
        decreases n - i,
    {
        let c = t.get_char(i);
        assert(t@.subrange(0, i + 1).drop_last() == t@.subrange(0, i as int));
        assert(t@.subrange(0, i + 1).last() == c);
        if c == '\n' {
            let piece = t.substring_char(start, i);
            let line = String::from_str(piece);
            let ghost before = out@;
            out.push(line);
            assert(out@.map_values(|s: String| s@) == before.map_values(|s: String| s@).push(
                line@,
            ));
            start = i + 1;
            assert(t@.subrange(start as int, i + 1) == Seq::<char>::empty());
        } else {
            assert(t@.subrange(start as int, i + 1) == t@.subrange(start as int, i as int).push(c));
        }
        i = i + 1;
    }
    assert(t@.subrange(0, n as int) == t@);
    if start < n {
        let piece = t.substring_char(start, n);
        let line = String::from_str(piece);
        let ghost before = out@;
        out.push(line);
        assert(out@.map_values(|s: String| s@) == before.map_values(|s: String| s@).push(line@));
    }
    out
}

/// Appends `line` and a line break to `out`.
pub fn push_line(out: &mut String, line: &str)
    ensures
        final(out)@ == old(out)@ + line@ + seq!['\n'],
{
    out.append(line);
    out.append("\n");
    proof {
        reveal_strlit("\n");
    }
}

/// The decimal digit `d` as a character.
pub open spec fn digit_char(d: int) -> char {
    if d == 0 {
        '0'
    } else if d == 1 {
        '1'
    } else if d == 2 {
        '2'
    } else if d == 3 {
        '3'
    } else if d == 4 {
        '4'
    } else if d == 5 {
        '5'
    } else if d == 6 {
        '6'
    } else if d == 7 {
        '7'
    } else if d == 8 {
        '8'
    } else {
        '9'
    }
}

/// `n` written in decimal, without leading zeros.
pub open spec fn decimal_of(n: nat) -> Seq<char>
    decreases n,
{
    if n < 10 {
        seq![digit_char(n as int)]
    } else {
        decimal_of(n / 10).push(digit_char((n % 10) as int))
    }
}

fn digit_text(d: u64) -> (r: &'static str)
    requires
        d < 10,
    ensures
        r@ == seq![digit_char(d as int)],
{
    proof {
        reveal_strlit("0");
        reveal_strlit("1");
        reveal_strlit("2");
        reveal_strlit("3");
        reveal_strlit("4");
        reveal_strlit("5");
        reveal_strlit("6");
        reveal_strlit("7");
        reveal_strlit("8");
        reveal_strlit("9");
    }
    match d {
        0 => "0",
        1 => "1",
        2 => "2",
        3 => "3",
        4 => "4",
        5 => "5",
        6 => "6",
        7 => "7",
        8 => "8",
        _ => "9",
    }
}

/// `n` in decimal, as `u64::to_string` writes it.
pub fn decimal_string(n: u64) -> (r: String)
    ensures
        r@ == decimal_of(n as nat),
    decreases n,
{
    if n < 10 {
        String::from_str(digit_text(n))
    } else {
        let mut s = decimal_string(n / 10);
        s.append(digit_text(n % 10));
        s
    }
}

} // verus!
