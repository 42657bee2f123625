//! Text as sequences of characters: reading strings, building strings.

use vstd::prelude::*;
use vstd::std_specs::iter::IteratorSpec;

verus! {

/// The characters of `s`, in order.
pub fn chars_of(s: &str) -> (r: Vec<char>)
    ensures
        r@ == s@,
{
    broadcast use vstd::string::group_string_axioms;

    let mut out: Vec<char> = Vec::new();
    let mut it = s.chars();
    loop
        invariant
            it.obeys_prophetic_iter_laws(),
            it.decrease() is Some,
            out@ + it.remaining() =~= s@,
        ensures
            it.remaining().len() == 0,
        decreases it.decrease()->0,
    {
        let next = it.next();
        match next {
            Some(c) => {
                out.push(c);
            },
            None => {
                break;
            },
        }
    }
    assert(out@ =~= out@ + it.remaining());
    out
}

/// `String::push` appends one character to the end of the string.
pub assume_specification[ std::string::String::push ](s: &mut std::string::String, c: char)
    ensures
        final(s)@ == old(s)@.push(c),
;

/// The views of a sequence of strings.
pub open spec fn views(parts: Seq<String>) -> Seq<Seq<char>> {
    Seq::new(parts.len(), |i: int| parts[i]@)
}

/// `parts` written one after another with `sep` between neighbours.
pub open spec fn join(parts: Seq<Seq<char>>, sep: Seq<char>) -> Seq<char>
    decreases parts.len(),
{
    if parts.len() == 0 {
        Seq::empty()
    } else if parts.len() == 1 {
        parts[0]
    } else {
        join(parts.drop_last(), sep) + sep + parts.last()
    }
}

/// `n` copies of `item`.
pub open spec fn copies(item: Seq<char>, n: nat) -> Seq<Seq<char>> {
    Seq::new(n, |i: int| item)
}

/// Appends the parts, separated by `sep`, to `out`.
pub fn push_joined(out: &mut String, parts: &Vec<String>, sep: &str)
    ensures
        final(out)@ == old(out)@ + join(views(parts@), sep@),
{
    let ghost all = views(parts@);
    let mut i: usize = 0;
    while i < parts.len()
        invariant
            i <= parts.len(),
            all == views(parts@),
            out@ == old(out)@ + join(all.take(i as int), sep@),
        decreases parts.len() - i,
    {
        proof {
            let before = all.take(i as int);
            let after = all.take(i as int + 1);
            assert(after.drop_last() =~= before);
            assert(after.last() == parts@[i as int]@);
            if i == 0 {
                assert(before.len() == 0);
            }
        }
        if i != 0 {
            out.append(sep);
        }
        out.append(parts[i].as_str());
        i += 1;
    }
    assert(all.take(parts.len() as int) =~= all);
}

/// Appends `n` copies of `item`, separated by `sep`, to `out`.
pub fn push_repeated(out: &mut String, item: &str, sep: &str, n: usize)
    ensures
        final(out)@ == old(out)@ + join(copies(item@, n as nat), sep@),
{
    let mut i: usize = 0;
    while i < n
        invariant
            i <= n,
            out@ == old(out)@ + join(copies(item@, i as nat), sep@),
        decreases n - i,
    {
        proof {
            let before = copies(item@, i as nat);
            let after = copies(item@, (i + 1) as nat);
            assert(after.drop_last() =~= before);
            assert(after.last() == item@);
        }
        if i != 0 {
            out.append(sep);
        }
        out.append(item);
        i += 1;
    }
}

/// The character that writes the digit `d`.
pub open spec fn digit(d: nat) -> char {
    if d == 0 {
        '0'
    } else if d == 1 {
        '1'
    } else if d == 2 {
        '2'
    } else if d == 3 {
        '3'
    } else if d == 4 {
        '4'
    } else if d == 5 {
        '5'
    } else if d == 6 {
        '6'
    } else if d == 7 {
        '7'
    } else if d == 8 {
        '8'
    } else {
        '9'
    }
}

/// `n` in decimal notation, without leading zeros.
pub open spec fn decimal(n: nat) -> Seq<char>
    decreases n,
{
    if n < 10 {
        seq![digit(n)]
    } else {
        decimal(n / 10).push(digit(n % 10))
    }
}

fn digit_char(d: u64) -> (c: char)
    requires
        d < 10,
    ensures
        c == digit(d as nat),
{
    if d == 0 {
        '0'
    } else if d == 1 {
        '1'
    } else if d == 2 {
        '2'
    } else if d == 3 {
        '3'
    } else if d == 4 {
        '4'
    } else if d == 5 {
        '5'
    } else if d == 6 {
        '6'
    } else if d == 7 {
        '7'
    } else if d == 8 {
        '8'
    } else {
        '9'
    }
}

/// Appends `n` in decimal notation to `out`.
pub fn push_decimal(out: &mut String, n: u64)
    ensures
        final(out)@ == old(out)@ + decimal(n as nat),
{
    let mut low_first: Vec<char> = Vec::new();
    low_first.push(digit_char(n % 10));
    let mut rest: u64 = n / 10;
    let ghost mut tail: Seq<char> = seq![digit((n % 10) as nat)];
    while rest > 0
        invariant
            tail.len() == low_first.len(),
            tail.len() > 0,
            forall|k: int| 0 <= k < tail.len() ==> tail[k] == low_first@[tail.len() - 1 - k],
            rest > 0 ==> decimal(n as nat) =~= decimal(rest as nat) + tail,
            rest == 0 ==> decimal(n as nat) =~= tail,
        decreases rest,
    {
        let c = digit_char(rest % 10);
        low_first.push(c);
        proof {
            tail = seq![c] + tail;
        }
        rest = rest / 10;
    }
    let mut left: usize = low_first.len();
    while left > 0
        invariant
            left <= low_first.len(),
            tail.len() == low_first.len(),
            forall|k: int| 0 <= k < tail.len() ==> tail[k] == low_first@[tail.len() - 1 - k],
            out@ == old(out)@ + tail.take(tail.len() - left),
        decreases left,
    {
        left -= 1;
        out.push(low_first[left]);
        assert(tail.take(tail.len() - left - 1).push(low_first@[left as int]) =~= tail.take(
            tail.len() - left,
        ));
    }
    assert(tail.take(tail.len() as int) =~= tail);
}

/// Whether `pat` stands in `text` at position `at`.
pub open spec fn occurs_at(text: Seq<char>, pat: Seq<char>, at: int) -> bool {
    0 <= at && at + pat.len() <= text.len() && text.subrange(at, at + pat.len()) == pat
}

/// The first position at or after `from` where `pat` stands in `text`.
pub open spec fn find_from(text: Seq<char>, pat: Seq<char>, from: int) -> Option<int>
    decreases text.len() - from,
{
    if 0 <= from && from + pat.len() <= text.len() {
        if occurs_at(text, pat, from) {
            Some(from)
        } else if from + pat.len() < text.len() {
            find_from(text, pat, from + 1)
        } else {
            None
        }
    } else {
        None
    }
}

/// The first position where `pat` stands in `text`.
pub open spec fn find_first(text: Seq<char>, pat: Seq<char>) -> Option<int> {
    find_from(text, pat, 0)
}

/// A search from `from` finds the least position at or after `from` where the
/// pattern stands, and finds nothing only where it stands at no such position.
pub proof fn lemma_find_from_least(text: Seq<char>, pat: Seq<char>, from: int)
    requires
        0 <= from,
    ensures
        match find_from(text, pat, from) {
            Some(at) => from <= at && occurs_at(text, pat, at) && forall|j: int|
                from <= j < at ==> !occurs_at(text, pat, j),
            None => forall|j: int| from <= j ==> !occurs_at(text, pat, j),
        },
    decreases text.len() - from,
{
    if from + pat.len() < text.len() && !occurs_at(text, pat, from) {
        lemma_find_from_least(text, pat, from + 1);
    }
}

fn matches_here(text: &Vec<char>, pat: &Vec<char>, at: usize) -> (r: bool)
    requires
        at + pat.len() <= text.len(),
    ensures
        r == occurs_at(text@, pat@, at as int),
{
    let mut k: usize = 0;
    while k < pat.len()
        invariant
            k <= pat.len(),
            at + pat.len() <= text.len(),
            forall|j: int| 0 <= j < k ==> text@[at + j] == pat@[j],
        decreases pat.len() - k,
    {
        if text[at + k] != pat[k] {
            assert(text@.subrange(at as int, at + pat.len())[k as int] != pat@[k as int]);
            return false;
        }
        k += 1;
    }
    assert(text@.subrange(at as int, at + pat.len()) =~= pat@);
    true
}

/// The first position where `pat` stands in `text`, if there is one.
pub fn find(text: &Vec<char>, pat: &Vec<char>) -> (r: Option<usize>)
    ensures
        match r {
            Some(at) => find_first(text@, pat@) == Some(at as int),
            None => find_first(text@, pat@).is_none(),
        },
{
    if pat.len() > text.len() {
        return None;
    }
    let last: usize = text.len() - pat.len();
    let mut at: usize = 0;
    loop
        invariant
            last == text.len() - pat.len(),
            at <= last,
            find_first(text@, pat@) == find_from(text@, pat@, at as int),
        decreases last - at,
    {
        if matches_here(text, pat, at) {
            return Some(at);
        }
        if at == last {
            return None;
        }
        at += 1;
    }
}

/// The lower-case form of an ASCII capital letter; any other character unchanged.
pub open spec fn lower(c: char) -> char {
    if 'A' <= c && c <= 'Z' {
        ((c as u8) + 32) as char
    } else {
        c
    }
}

/// `text` with each ASCII capital letter in lower case.
pub open spec fn lowered(text: Seq<char>) -> Seq<char> {
    Seq::new(text.len(), |i: int| lower(text[i]))
}

/// The lower-case form of `c`, by the ASCII rule.
pub fn to_lower(c: char) -> (r: char)
    ensures
        r == lower(c),
{
    if 'A' <= c && c <= 'Z' {
        ((c as u8) + 32) as char
    } else {
        c
    }
}

/// `text` with each ASCII capital letter in lower case.
pub fn to_lowered(text: &Vec<char>) -> (r: Vec<char>)
    ensures
        r@ == lowered(text@),
{
    let mut out: Vec<char> = Vec::new();
    let mut i: usize = 0;
    while i < text.len()
        invariant
            i <= text.len(),
            out@ =~= lowered(text@).take(i as int),
        decreases text.len() - i,
    {
        out.push(to_lower(text[i]));
        i += 1;
    }
    assert(out@ =~= lowered(text@));
    out
}

/// How often `c` stands in `text`.
pub open spec fn occurrences(text: Seq<char>, c: char) -> nat
    decreases text.len(),
{
    if text.len() == 0 {
        0
    } else {
        occurrences(text.drop_last(), c) + if text.last() == c {
            1nat
        } else {
            0nat
        }
    }
}

/// A character stands in two texts written one after the other as often as
/// in both together.
pub proof fn lemma_occurrences_concat(a: Seq<char>, b: Seq<char>, c: char)
    ensures
        occurrences(a + b, c) == occurrences(a, c) + occurrences(b, c),
    decreases b.len(),
{
    if b.len() == 0 {
        assert(a + b =~= a);
    } else {
        assert((a + b).drop_last() =~= a + b.drop_last());
        assert((a + b).last() == b.last());
        lemma_occurrences_concat(a, b.drop_last(), c);
    }
}

/// In `n` copies of `item` joined by `sep`, a character stands `n` times as
/// often as in `item`, and once less than `n` times as often as in `sep`.
pub proof fn lemma_occurrences_copies(item: Seq<char>, sep: Seq<char>, n: nat, c: char)
    ensures
        occurrences(join(copies(item, n), sep), c) == n * occurrences(item, c) + (if n == 0 {
            0
        } else {
            n - 1
        }) * occurrences(sep, c),
    decreases n,
{
    let all = copies(item, n);
    let per_item = occurrences(item, c);
    let per_sep = occurrences(sep, c);
    if n == 0 {
        assert(join(all, sep).len() == 0);
        assert(0 * per_item + 0 * per_sep == 0) by (nonlinear_arith);
    } else if n == 1 {
        assert(all[0] == item);
        assert(join(all, sep) == item);
        assert(1 * per_item + 0 * per_sep == per_item) by (nonlinear_arith);
    } else {
        let before = copies(item, (n - 1) as nat);
        assert(all.drop_last() =~= before);
        assert(all.last() == item);
        assert(join(all, sep) == join(before, sep) + sep + item);
        lemma_occurrences_copies(item, sep, (n - 1) as nat, c);
        lemma_occurrences_concat(join(before, sep), sep, c);
        lemma_occurrences_concat(join(before, sep) + sep, item, c);
        assert(n * per_item + (n - 1) * per_sep == ((n - 1) * per_item + (n - 2) * per_sep)
            + per_sep + per_item) by (nonlinear_arith)
            requires
                n >= 2,
        ;
    }
}

} // verus!
