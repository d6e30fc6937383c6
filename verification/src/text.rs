//! Scanning of character sequences: substring search, whitespace trimming and
//! replacement, each with an exact mathematical statement.

use vstd::prelude::*;
use vstd::std_specs::iter::IteratorSpec;
use vstd::string::*;

verus! {

/// `pat` occurs in `s` starting at position `i`.
pub open spec fn occurs_at(s: Seq<char>, pat: Seq<char>, i: int) -> bool {
    0 <= i && i + pat.len() <= s.len() && s.subrange(i, i + pat.len()) == pat
}

/// `pat` occurs somewhere in `s`.
pub open spec fn contains(s: Seq<char>, pat: Seq<char>) -> bool {
    exists|i: int| occurs_at(s, pat, i)
}

/// `s` begins with `pat`.
pub open spec fn starts_with(s: Seq<char>, pat: Seq<char>) -> bool {
    occurs_at(s, pat, 0)
}

/// Position of the first occurrence of `pat` in `s` at or after `from`.
pub open spec fn find_from(s: Seq<char>, pat: Seq<char>, from: int) -> Option<int>
    decreases s.len() - from + 1,
{
    if from < 0 || from + pat.len() > s.len() {
        None
    } else if occurs_at(s, pat, from) {
        Some(from)
    } else {
        find_from(s, pat, from + 1)
    }
}

/// Position of the first occurrence of `pat` in `s`.
pub open spec fn find(s: Seq<char>, pat: Seq<char>) -> Option<int> {
    find_from(s, pat, 0)
}

/// Position of the last occurrence of `pat` in `s` at or before `upto`.
pub open spec fn rfind_upto(s: Seq<char>, pat: Seq<char>, upto: int) -> Option<int>
    decreases upto + 1,
{
    if upto < 0 {
        None
    } else if occurs_at(s, pat, upto) {
        Some(upto)
    } else {
        rfind_upto(s, pat, upto - 1)
    }
}

/// Position of the last occurrence of `pat` in `s`.
pub open spec fn rfind(s: Seq<char>, pat: Seq<char>) -> Option<int> {
    rfind_upto(s, pat, s.len() - pat.len())
}

/// The characters that Unicode counts as white space.
pub open spec fn is_whitespace(c: char) -> bool {
    let n = c as u32;
    (0x09 <= n <= 0x0D) || n == 0x20 || n == 0x85 || n == 0xA0 || n == 0x1680 || (0x2000 <= n
        <= 0x200A) || n == 0x2028 || n == 0x2029 || n == 0x202F || n == 0x205F || n == 0x3000
}

/// First position from `i` on, below `j`, that holds no whitespace, or `j`.
pub open spec fn trim_lo(s: Seq<char>, i: int, j: int) -> int
    decreases j - i,
{
    if 0 <= i < j <= s.len() && is_whitespace(s[i]) {
        trim_lo(s, i + 1, j)
    } else {
        i
    }
}

/// End of the last non-whitespace character before `j`, not below `lo`.
pub open spec fn trim_hi(s: Seq<char>, lo: int, j: int) -> int
    decreases j,
{
    if 0 < j <= s.len() && lo < j && is_whitespace(s[j - 1]) {
        trim_hi(s, lo, j - 1)
    } else {
        j
    }
}

/// The part of `s` between `a` and `b`, without the whitespace at its ends.
pub open spec fn trimmed(s: Seq<char>, a: int, b: int) -> Seq<char> {
    s.subrange(trim_lo(s, a, b), trim_hi(s, trim_lo(s, a, b), b))
}

/// `s` without its leading and trailing whitespace.
pub open spec fn trim(s: Seq<char>) -> Seq<char> {
    trimmed(s, 0, s.len() as int)
}

/// `s` with every occurrence of `target`, taken from the left and without
/// overlap, replaced by `replacement`. An empty `target` leaves `s` as it is.
pub open spec fn replace_all(s: Seq<char>, target: Seq<char>, replacement: Seq<char>) -> Seq<char>
    decreases s.len(),
{
    if target.len() == 0 || s.len() < target.len() {
        s
    } else if occurs_at(s, target, 0) {
        replacement + replace_all(
            s.subrange(target.len() as int, s.len() as int),
            target,
            replacement,
        )
    } else {
        seq![s[0]] + replace_all(s.subrange(1, s.len() as int), target, replacement)
    }
}

/// The search finds an occurrence, and none lies between `from` and it;
/// it finds nothing only where there is none from `from` on.
pub proof fn lemma_find_from_is_first(s: Seq<char>, pat: Seq<char>, from: int)
    requires
        0 <= from,
    ensures
        match find_from(s, pat, from) {
            Some(i) => from <= i && occurs_at(s, pat, i) && forall|j: int|
                from <= j < i ==> !occurs_at(s, pat, j),
            None => forall|j: int| from <= j ==> !occurs_at(s, pat, j),
        },
    decreases s.len() - from + 1,
{
    if from + pat.len() > s.len() {
    } else if occurs_at(s, pat, from) {
    } else {
        lemma_find_from_is_first(s, pat, from + 1);
    }
}

/// An occurrence before which there is none from `from` on is what the
/// search finds.
pub proof fn lemma_first_occurrence_is_found(s: Seq<char>, pat: Seq<char>, from: int, i: int)
    requires
        0 <= from <= i,
        occurs_at(s, pat, i),
        forall|j: int| from <= j < i ==> !occurs_at(s, pat, j),
    ensures
        find_from(s, pat, from) == Some(i),
{
    lemma_find_from_is_first(s, pat, from);
}

/// An occurrence in a text is one in every text that begins with that text.
pub proof fn lemma_occurrence_in_extension(s: Seq<char>, tail: Seq<char>, pat: Seq<char>, i: int)
    requires
        0 <= i,
        i + pat.len() <= s.len(),
    ensures
        occurs_at(s + tail, pat, i) == occurs_at(s, pat, i),
{
    assert((s + tail).subrange(i, i + pat.len()) =~= s.subrange(i, i + pat.len()));
}

/// What the search finds in a text, it finds in every text that begins with
/// that text.
pub proof fn lemma_find_in_extension(s: Seq<char>, tail: Seq<char>, pat: Seq<char>, from: int)
    requires
        0 <= from,
        find_from(s, pat, from) is Some,
    ensures
        find_from(s + tail, pat, from) == find_from(s, pat, from),
{
    lemma_find_from_is_first(s, pat, from);
    let i = find_from(s, pat, from)->0;
    lemma_occurrence_in_extension(s, tail, pat, i);
    assert forall|j: int| from <= j < i implies !occurs_at(s + tail, pat, j) by {
        lemma_occurrence_in_extension(s, tail, pat, j);
    }
    lemma_first_occurrence_is_found(s + tail, pat, from, i);
}

/// The search from the right finds an occurrence, and none lies after it up
/// to `upto`; it finds nothing only where there is none up to `upto`.
pub proof fn lemma_rfind_upto_is_last(s: Seq<char>, pat: Seq<char>, upto: int)
    ensures
        match rfind_upto(s, pat, upto) {
            Some(i) => 0 <= i <= upto && occurs_at(s, pat, i) && forall|j: int|
                i < j <= upto ==> !occurs_at(s, pat, j),
            None => forall|j: int| j <= upto ==> !occurs_at(s, pat, j),
        },
    decreases upto + 1,
{
    if upto < 0 {
    } else if occurs_at(s, pat, upto) {
    } else {
        lemma_rfind_upto_is_last(s, pat, upto - 1);
    }
}

/// A text contains a pattern exactly when the search from the left finds it.
pub proof fn lemma_contains_iff_find(s: Seq<char>, pat: Seq<char>)
    ensures
        contains(s, pat) <==> find(s, pat) is Some,
{
    lemma_find_from_is_first(s, pat, 0);
}

/// The bounds of the trimmed part lie in order between `i` and `j`, and no
/// whitespace stands at either end of it.
pub proof fn lemma_trim_bounds(s: Seq<char>, i: int, j: int)
    requires
        0 <= i <= j <= s.len(),
    ensures
        i <= trim_lo(s, i, j) <= j,
        trim_lo(s, i, j) < j ==> !is_whitespace(s[trim_lo(s, i, j)]),
        i <= trim_hi(s, i, j) <= j,
        i < trim_hi(s, i, j) ==> !is_whitespace(s[trim_hi(s, i, j) - 1]),
    decreases j - i,
{
    if i < j && is_whitespace(s[i]) {
        lemma_trim_bounds(s, i + 1, j);
    }
    if i < j && is_whitespace(s[j - 1]) {
        lemma_trim_bounds(s, i, j - 1);
    }
}

proof fn lemma_trim_lo_shift(s: Seq<char>, a: int, b: int, i: int)
    requires
        0 <= a <= i <= b <= s.len(),
    ensures
        trim_lo(s.subrange(a, b), i - a, b - a) == trim_lo(s, i, b) - a,
    decreases b - i,
{
    if i < b {
        assert(s.subrange(a, b)[i - a] == s[i]);
        if is_whitespace(s[i]) {
            lemma_trim_lo_shift(s, a, b, i + 1);
        }
    }
}

proof fn lemma_trim_hi_shift(s: Seq<char>, a: int, b: int, lo: int, j: int)
    requires
        0 <= a <= lo <= j <= b <= s.len(),
    ensures
        trim_hi(s.subrange(a, b), lo - a, j - a) == trim_hi(s, lo, j) - a,
    decreases j,
{
    if lo < j {
        assert(s.subrange(a, b)[j - 1 - a] == s[j - 1]);
        if is_whitespace(s[j - 1]) {
            lemma_trim_hi_shift(s, a, b, lo, j - 1);
        }
    }
}

/// Trimming a part of a text in place gives what trimming that part alone gives.
pub proof fn lemma_trimmed_is_trim_of_part(s: Seq<char>, a: int, b: int)
    requires
        0 <= a <= b <= s.len(),
    ensures
        trimmed(s, a, b) == trim(s.subrange(a, b)),
{
    let part = s.subrange(a, b);
    lemma_trim_lo_shift(s, a, b, a);
    lemma_trim_bounds(s, a, b);
    let lo = trim_lo(s, a, b);
    lemma_trim_hi_shift(s, a, b, lo, b);
    lemma_trim_bounds(s, lo, b);
    assert(trimmed(s, a, b) =~= trim(part));
}

/// Whether `c` is whitespace.
pub fn char_is_whitespace(c: char) -> (r: bool)
    ensures
        r == is_whitespace(c),
{
    let n: u32 = c as u32;
    (0x09 <= n && n <= 0x0D) || n == 0x20 || n == 0x85 || n == 0xA0 || n == 0x1680 || (0x2000 <= n
        && n <= 0x200A) || n == 0x2028 || n == 0x2029 || n == 0x202F || n == 0x205F || n == 0x3000
}

/// The characters of `s`, in order.
pub fn to_chars(s: &str) -> (r: Vec<char>)
    ensures
        r@ == s@,
{
    broadcast use {axiom_spec_iter, next_postcondition};

    let mut out: Vec<char> = Vec::new();
    let mut it = s.chars();
    loop
        invariant
            out@ + it.remaining() == s@,
        ensures
            out@ == s@,
        decreases s@.len() - out@.len(),
    {
        let ghost before = it.remaining();
        let ghost had = out@;
        match it.next() {
            Some(c) => {
                out.push(c);
                assert(out@ + it.remaining() =~= had + before);
            },
            None => {
                assert(out@ + it.remaining() =~= out@);
                break ;
            },
        }
    }
    out
}

/// Whether `pat` occurs in `s` at position `i`.
pub fn matches_at(s: &Vec<char>, pat: &Vec<char>, i: usize) -> (r: bool)
    ensures
        r == occurs_at(s@, pat@, i as int),
{
    if pat.len() > s.len() || i > s.len() - pat.len() {
        return false;
    }
    let mut j: usize = 0;
    while j < pat.len()
        invariant
            i + pat.len() <= s.len(),
            j <= pat.len(),
            forall|k: int| 0 <= k < j ==> s@[i + k] == pat@[k],
        decreases pat.len() - j,
    {
        if s[i + j] != pat[j] {
            assert(s@.subrange(i as int, i + pat@.len())[j as int] != pat@[j as int]);
            return false;
        }
        j += 1;
    }
    assert(s@.subrange(i as int, i + pat@.len()) =~= pat@);
    true
}

/// Position of the first occurrence of `pat` in `s` at or after `from`.
pub fn find_chars(s: &Vec<char>, pat: &Vec<char>, from: usize) -> (r: Option<usize>)
    ensures
        r is Some <==> find_from(s@, pat@, from as int) is Some,
        r matches Some(i) ==> find_from(s@, pat@, from as int) == Some(i as int) && from <= i && i
            + pat@.len() <= s@.len() <= usize::MAX,
{
    if pat.len() > s.len() {
        return None;
    }
    let last: usize = s.len() - pat.len();
    if from > last {
        return None;
    }
    let mut i: usize = from;
    loop
        invariant
            last == s.len() - pat.len(),
            from <= i <= last,
            find_from(s@, pat@, from as int) == find_from(s@, pat@, i as int),
        decreases last - i,
    {
        if matches_at(s, pat, i) {
            return Some(i);
        }
        if i == last {
            assert(find_from(s@, pat@, i + 1) is None);
            return None;
        }
        i += 1;
    }
}

/// Position of the last occurrence of `pat` in `s`.
pub fn rfind_chars(s: &Vec<char>, pat: &Vec<char>) -> (r: Option<usize>)
    ensures
        r is Some <==> rfind(s@, pat@) is Some,
        r matches Some(i) ==> rfind(s@, pat@) == Some(i as int) && i + pat@.len() <= s@.len()
            <= usize::MAX,
{
    if pat.len() > s.len() {
        return None;
    }
    let mut i: usize = s.len() - pat.len();
    loop
        invariant
            i + pat.len() <= s.len(),
            rfind(s@, pat@) == rfind_upto(s@, pat@, i as int),
        decreases i,
    {
        if matches_at(s, pat, i) {
            return Some(i);
        }
        if i == 0 {
            assert(rfind_upto(s@, pat@, -1) is None);
            return None;
        }
        i -= 1;
    }
}

/// The bounds of the part of `s` between `from` and `to`, without the
/// whitespace at its ends.
pub fn trim_bounds(s: &Vec<char>, from: usize, to: usize) -> (r: (usize, usize))
    requires
        from <= to <= s.len(),
    ensures
        r.0 == trim_lo(s@, from as int, to as int),
        r.1 == trim_hi(s@, r.0 as int, to as int),
        from <= r.0 <= r.1 <= to,
{
    let mut lo: usize = from;
    while lo < to && char_is_whitespace(s[lo])
        invariant
            from <= lo <= to <= s.len(),
            trim_lo(s@, from as int, to as int) == trim_lo(s@, lo as int, to as int),
        decreases to - lo,
    {
        lo += 1;
    }
    let mut hi: usize = to;
    while lo < hi && char_is_whitespace(s[hi - 1])
        invariant
            lo <= hi <= to <= s.len(),
            trim_hi(s@, lo as int, to as int) == trim_hi(s@, lo as int, hi as int),
        decreases hi,
    {
        hi -= 1;
    }
    (lo, hi)
}

/// Whether two texts hold the same characters.
pub fn same_chars(a: &Vec<char>, b: &Vec<char>) -> (r: bool)
    ensures
        r == (a@ == b@),
{
    if a.len() != b.len() {
        return false;
    }
    let r = matches_at(a, b, 0);
    proof {
        if a@ == b@ {
            assert(a@.subrange(0, b@.len() as int) =~= b@);
        }
        if r {
            assert(a@.subrange(0, b@.len() as int) =~= a@);
        }
    }
    r
}

/// Whether two strings hold the same characters.
pub fn same_text(a: &str, b: &str) -> (r: bool)
    ensures
        r == (a@ == b@),
{
    let x = to_chars(a);
    let y = to_chars(b);
    same_chars(&x, &y)
}

/// The part of `s` between the character positions `from` and `to`.
pub fn slice_text(s: &str, from: usize, to: usize) -> (r: String)
    requires
        from <= to <= s@.len(),
    ensures
        r@ == s@.subrange(from as int, to as int),
{
    String::from_str(s.substring_char(from, to))
}

/// Appends one character to `s`, by `String::push` of std.
#[verifier::external_body]
fn push_char(s: &mut String, c: char)
    ensures
        final(s)@ == old(s)@.push(c),
{
    s.push(c)
}

/// The string that holds the characters `chars`, in order.
pub fn from_chars(chars: &Vec<char>) -> (r: String)
    ensures
        r@ == chars@,
{
    let mut out = String::new();
    let mut i: usize = 0;
    while i < chars.len()
        invariant
            i <= chars.len(),
            out@ == chars@.subrange(0, i as int),
        decreases chars.len() - i,
    {
        push_char(&mut out, chars[i]);
        i += 1;
        assert(out@ =~= chars@.subrange(0, i as int));
    }
    assert(chars@.subrange(0, chars@.len() as int) =~= chars@);
    out
}

/// `s` with every occurrence of `target`, taken from the left and without
/// overlap, replaced by `replacement`; `s` itself where `target` is empty.
pub fn replace_chars(s: &Vec<char>, target: &Vec<char>, replacement: &Vec<char>) -> (r: Vec<char>)
    ensures
        r@ == replace_all(s@, target@, replacement@),
{
    let mut out: Vec<char> = Vec::new();
    let n: usize = s.len();
    let mut i: usize = 0;
    assert(s@.subrange(0, n as int) =~= s@);
    while i < n
        invariant
            n == s.len(),
            i <= n,
            out@ + replace_all(s@.subrange(i as int, n as int), target@, replacement@)
                == replace_all(s@, target@, replacement@),
        decreases n - i,
    {
        let ghost rest = s@.subrange(i as int, n as int);
        let ghost before = out@;
        if target.len() > 0 && matches_at(s, target, i) {
            assert(rest.subrange(0, target@.len() as int) =~= s@.subrange(
                i as int,
                i + target@.len(),
            ));
            assert(rest.subrange(target@.len() as int, rest.len() as int) =~= s@.subrange(
                i + target@.len(),
                n as int,
            ));
            let mut k: usize = 0;
            while k < replacement.len()
                invariant
                    k <= replacement.len(),
                    out@ == before + replacement@.subrange(0, k as int),
                decreases replacement.len() - k,
            {
                out.push(replacement[k]);
                k += 1;
                assert(out@ =~= before + replacement@.subrange(0, k as int));
            }
            assert(replacement@.subrange(0, replacement@.len() as int) =~= replacement@);
            i += target.len();
            assert(out@ + replace_all(s@.subrange(i as int, n as int), target@, replacement@)
                =~= before + replace_all(rest, target@, replacement@));
        } else {
            proof {
                if target@.len() > 0 && rest.len() >= target@.len() {
                    assert(rest.subrange(0, target@.len() as int) =~= s@.subrange(
                        i as int,
                        i + target@.len(),
                    ));
                }
                assert(rest.subrange(1, rest.len() as int) =~= s@.subrange(i + 1, n as int));
                lemma_replace_all_step(rest, target@, replacement@);
            }
            out.push(s[i]);
            i += 1;
            assert(out@ + replace_all(s@.subrange(i as int, n as int), target@, replacement@)
                =~= before + replace_all(rest, target@, replacement@));
        }
    }
    assert(replace_all(s@.subrange(n as int, n as int), target@, replacement@)
        =~= Seq::<char>::empty());
    assert(out@ + Seq::<char>::empty() =~= out@);
    out
}

/// Where `target` does not stand at the start of a non-empty `s`, the first
/// character stays and the replacement goes on behind it.
proof fn lemma_replace_all_step(s: Seq<char>, target: Seq<char>, replacement: Seq<char>)
    requires
        s.len() > 0,
        target.len() == 0 || !occurs_at(s, target, 0),
    ensures
        replace_all(s, target, replacement) == seq![s[0]] + replace_all(
            s.subrange(1, s.len() as int),
            target,
            replacement,
        ),
    decreases s.len(),
{
    let tail = s.subrange(1, s.len() as int);
    if target.len() == 0 {
        assert(replace_all(tail, target, replacement) == tail);
        assert(s =~= seq![s[0]] + tail);
    } else if s.len() < target.len() {
        assert(replace_all(tail, target, replacement) == tail);
        assert(s =~= seq![s[0]] + tail);
    }
}

} // verus!
