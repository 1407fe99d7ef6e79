//! Formatting of author lists taken from package metadata.
use vstd::prelude::*;

use crate::text::push_char;

verus! {

/// What one character of an author list becomes, given how many `<` are open
/// before it: a `:` outside angle brackets becomes `", "`; `<` opens one level
/// and `>` closes one where one is open.
pub open spec fn author_char(depth: nat, c: char) -> (nat, Seq<char>) {
    if depth > 0 && c == '>' {
        ((depth - 1) as nat, seq![c])
    } else if c == '<' {
        (depth + 1, seq![c])
    } else if depth == 0 && c == ':' {
        (depth, seq![',', ' '])
    } else {
        (depth, seq![c])
    }
}

/// The author list `s` read from `depth` open brackets on, with every `:`
/// outside angle brackets replaced by `", "`.
pub open spec fn authors_from(s: Seq<char>, depth: nat) -> Seq<char>
    decreases s.len(),
{
    if s.len() == 0 {
        Seq::empty()
    } else {
        let (d, out) = author_char(depth, s[0]);
        out + authors_from(s.subrange(1, s.len() as int), d)
    }
}

/// Replaces every `:` that is not inside `<...>` with `", "`, so that
/// `"a:b <x:y>"` becomes `"a, b <x:y>"`.
pub fn process_author_str(author: &str) -> (r: String)
    ensures
        r@ == authors_from(author@, 0),
{
    let n = author.unicode_len();
    let mut res = String::new();
    let mut depth: usize = 0;
    let mut i: usize = 0;
    assert(author@.subrange(0, n as int) == author@);
    while i < n
        invariant
            n == author@.len(),
            i <= n,
            depth <= i,
            res@ + authors_from(author@.subrange(i as int, n as int), depth as nat) == authors_from(
                author@,
                0,
            ),
        decreases n - i,
    {
        let ch = author.get_char(i);
        let ghost rest = author@.subrange(i as int, n as int);
        assert(rest.subrange(1, rest.len() as int) == author@.subrange(i + 1, n as int));
        let ghost before = res@;
        if depth > 0 && ch == '>' {
            depth = depth - 1;
            push_char(&mut res, ch);
        } else if ch == '<' {
            depth = depth + 1;
            push_char(&mut res, ch);
        } else if depth == 0 && ch == ':' {
            push_char(&mut res, ',');
            push_char(&mut res, ' ');
            assert(res@ == before + seq![',', ' ']);
        } else {
            push_char(&mut res, ch);
        }
        i = i + 1;
    }
    assert(author@.subrange(n as int, n as int) == Seq::<char>::empty());
    res
}

} // verus!
