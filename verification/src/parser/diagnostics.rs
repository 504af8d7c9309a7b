//! The parts of a diagnostic that are computed from the place of an error.
use crate::text::nat_digits;
use vstd::prelude::*;

verus! {

/// The character `c`, `n` times over.
pub open spec fn run(c: char, n: int) -> Seq<char>
    decreases n,
{
    if n <= 0 {
        Seq::empty()
    } else {
        run(c, n - 1).push(c)
    }
}

/// The line that points at the columns from `start` up to `end` of a text
/// that is `width` columns wide: blanks up to `start`, carets up to `end`,
/// and blanks up to `width`.
pub open spec fn caret_text(start: int, end: int, width: int) -> Seq<char> {
    run(' ', start) + run('^', end - start) + run(' ', width - end)
}

/// Adds the character `c` to `line`, `n` times over.
fn push_run(line: &mut String, c: char, n: usize)
    ensures
        final(line)@ == old(line)@ + run(c, n as int),
{
    let mut i: usize = 0;
    assert(line@ + run(c, 0) =~= line@);
    while i < n
        invariant
            i <= n,
            line@ == old(line)@ + run(c, i as int),
        decreases n - i,
    {
        line.push(c);
        i = i + 1;
        assert(line@ =~= old(line)@ + run(c, i as int));
    }
}

/// The line that points at the columns from `start` up to `end` of a text
/// that is `width` columns wide.
pub fn caret_line(start: usize, end: usize, width: usize) -> (line: String)
    ensures
        line@ == caret_text(start as int, end as int, width as int),
{
    let mut line = String::new();
    push_run(&mut line, ' ', start);
    push_run(
        &mut line,
        '^',
        if end > start {
            end - start
        } else {
            0
        },
    );
    push_run(
        &mut line,
        ' ',
        if width > end {
            width - end
        } else {
            0
        },
    );
    assert(line@ =~= caret_text(start as int, end as int, width as int));
    line
}

/// The number of digits of a line number.
pub fn digits(n: usize) -> (count: usize)
    ensures
        count == nat_digits(n as nat).len(),
{
    let mut rest = n;
    let mut count: usize = 1;
    while rest >= 10
        invariant
            count >= 1,
            nat_digits(n as nat).len() == nat_digits(rest as nat).len() + count - 1,
            count - 1 + rest <= n,
        decreases rest,
    {
        rest = rest / 10;
        count = count + 1;
    }
    count
}

} // verus!
