//! Character-level text handling used by every check: whitespace, trimming,
//! line and word splitting, searching, and decimal rendering.

use vstd::prelude::*;
use vstd::std_specs::iter::IteratorSpec;

verus! {

broadcast use vstd::string::group_string_axioms;

/// Unicode `White_Space`, the set that `char::is_whitespace` tests.
pub open spec fn is_ws(c: char) -> bool {
    let n = c as u32;
    (9 <= n && n <= 13) || n == 32 || n == 0x85 || n == 0xA0 || n == 0x1680 || (0x2000 <= n
        && n <= 0x200A) || n == 0x2028 || n == 0x2029 || n == 0x202F || n == 0x205F || n == 0x3000
}

pub fn is_whitespace_char(c: char) -> (b: bool)
    ensures
        b == is_ws(c),
{
    let n: u32 = c as u32;
    (9 <= n && n <= 13) || n == 32 || n == 0x85 || n == 0xA0 || n == 0x1680 || (0x2000 <= n
        && n <= 0x200A) || n == 0x2028 || n == 0x2029 || n == 0x202F || n == 0x205F || n == 0x3000
}

/// Calls `String::push`, which appends one character to the string.
#[verifier::external_body]
fn push_char(s: &mut String, c: char)
    ensures
        final(s)@ == old(s)@.push(c),
{
    s.push(c);
}

/// The characters of a string slice, in order.
pub fn chars_of(s: &str) -> (r: Vec<char>)
    ensures
        r@ == s@,
{
    let mut out: Vec<char> = Vec::new();
    let mut it = s.chars();
    let ghost all = s@;
    loop
        invariant
            it.obeys_prophetic_iter_laws(),
            all == s@,
            all == out@ + it.remaining(),
            it.decrease() is Some,
        decreases it.decrease()->0,
    {
        let ghost before = it.remaining();
        match it.next() {
            Some(c) => {
                out.push(c);
                assert(all == out@ + it.remaining()) by {
                    assert(before == seq![c] + it.remaining());
                }
            },
            None => {
                assert(before.len() == 0);
                assert(all == out@);
                return out;
            },
        }
    }
}

/// A string holding exactly the given characters.
pub fn string_of(v: &[char]) -> (r: String)
    ensures
        r@ == v@,
{
    let mut s = String::new();
    let mut i: usize = 0;
    while i < v.len()
        invariant
            i <= v@.len(),
            s@ == v@.take(i as int),
        decreases v@.len() - i,
    {
        push_char(&mut s, v[i]);
        assert(v@.take(i as int + 1) == v@.take(i as int).push(v@[i as int]));
        i += 1;
    }
    assert(v@.take(v@.len() as int) == v@);
    s
}


/// The characters of a sequence of vectors, taken one by one.
pub open spec fn seqs_of(v: Seq<Vec<char>>) -> Seq<Seq<char>> {
    v.map_values(|x: Vec<char>| x@)
}

/// The view of an optional string.
pub open spec fn opt_view(o: Option<String>) -> Option<Seq<char>> {
    match o {
        Some(s) => Some(s@),
        None => None,
    }
}

/// The views of a sequence of strings.
pub open spec fn strs_of(v: Seq<String>) -> Seq<Seq<char>> {
    v.map_values(|x: String| x@)
}

/// Index of the first occurrence of `c` in `s`, or `s.len()` when there is none.
pub open spec fn find_char(s: Seq<char>, c: char) -> int
    decreases s.len(),
{
    if s.len() == 0 {
        0
    } else if s[0] == c {
        0
    } else {
        1 + find_char(s.drop_first(), c)
    }
}

/// Index of the first whitespace character of `s`, or `s.len()` when there is none.
pub open spec fn find_ws(s: Seq<char>) -> int
    decreases s.len(),
{
    if s.len() == 0 {
        0
    } else if is_ws(s[0]) {
        0
    } else {
        1 + find_ws(s.drop_first())
    }
}

pub proof fn lemma_find_char(s: Seq<char>, c: char, i: int)
    requires
        0 <= i <= s.len(),
        forall|j: int| 0 <= j < i ==> s[j] != c,
        i < s.len() ==> s[i] == c,
    ensures
        find_char(s, c) == i,
    decreases i,
{
    if i > 0 {
        lemma_find_char(s.drop_first(), c, i - 1);
    }
}

pub proof fn lemma_find_ws(s: Seq<char>, i: int)
    requires
        0 <= i <= s.len(),
        forall|j: int| 0 <= j < i ==> !is_ws(s[j]),
        i < s.len() ==> is_ws(s[i]),
    ensures
        find_ws(s) == i,
    decreases i,
{
    if i > 0 {
        lemma_find_ws(s.drop_first(), i - 1);
    }
}

pub proof fn lemma_find_ws_bounds(s: Seq<char>)
    ensures
        0 <= find_ws(s) <= s.len(),
        find_ws(s) < s.len() ==> is_ws(s[find_ws(s)]),
        forall|j: int| 0 <= j < find_ws(s) ==> !is_ws(s[j]),
    decreases s.len(),
{
    if s.len() > 0 && !is_ws(s[0]) {
        lemma_find_ws_bounds(s.drop_first());
        assert forall|j: int| 0 <= j < find_ws(s) implies !is_ws(s[j]) by {
            if j > 0 {
                assert(s[j] == s.drop_first()[j - 1]);
            }
        }
    }
}

/// Drops one trailing carriage return.
pub open spec fn strip_cr(s: Seq<char>) -> Seq<char> {
    if s.len() > 0 && s.last() == '\r' {
        s.drop_last()
    } else {
        s
    }
}

/// The lines of a text as `str::lines` yields them: split at `\n`, a `\r`
/// just before a `\n` dropped, no empty line after a final `\n`.
pub open spec fn lines(s: Seq<char>) -> Seq<Seq<char>>
    decreases s.len(),
{
    if s.len() == 0 {
        seq![]
    } else {
        let i = find_char(s, '\n');
        if 0 <= i < s.len() {
            seq![strip_cr(s.take(i))] + lines(s.skip(i + 1))
        } else {
            seq![s]
        }
    }
}

/// The whitespace-separated words of a text, as `str::split_whitespace` yields them.
pub open spec fn words(s: Seq<char>) -> Seq<Seq<char>>
    decreases s.len(),
{
    if s.len() == 0 {
        seq![]
    } else if is_ws(s[0]) {
        words(s.drop_first())
    } else {
        let i = find_ws(s);
        if 1 <= i <= s.len() {
            seq![s.take(i)] + words(s.skip(i))
        } else {
            seq![]
        }
    }
}

/// The pieces of a text between occurrences of `c`, as `str::split(c)` yields them.
pub open spec fn split_on(s: Seq<char>, c: char) -> Seq<Seq<char>>
    decreases s.len(),
{
    let i = find_char(s, c);
    if 0 <= i < s.len() {
        seq![s.take(i)] + split_on(s.skip(i + 1), c)
    } else {
        seq![s]
    }
}

/// `s` without its leading whitespace.
pub open spec fn trim_start(s: Seq<char>) -> Seq<char>
    decreases s.len(),
{
    if s.len() > 0 && is_ws(s[0]) {
        trim_start(s.drop_first())
    } else {
        s
    }
}

/// `s` without its trailing whitespace.
pub open spec fn trim_end(s: Seq<char>) -> Seq<char>
    decreases s.len(),
{
    if s.len() > 0 && is_ws(s.last()) {
        trim_end(s.drop_last())
    } else {
        s
    }
}

/// `s` without leading and trailing whitespace, as `str::trim` gives it.
pub open spec fn trim(s: Seq<char>) -> Seq<char> {
    trim_end(trim_start(s))
}

/// `s` without any trailing `c`, as `str::trim_end_matches(c)` gives it.
pub open spec fn trim_end_char(s: Seq<char>, c: char) -> Seq<char>
    decreases s.len(),
{
    if s.len() > 0 && s.last() == c {
        trim_end_char(s.drop_last(), c)
    } else {
        s
    }
}

/// `t` occurs in `s` as a contiguous piece.
pub open spec fn contains(s: Seq<char>, t: Seq<char>) -> bool {
    exists|i: int| 0 <= i && i + t.len() <= s.len() && #[trigger] s.subrange(i, i + t.len()) == t
}

/// `s` begins with `t`.
pub open spec fn starts_with(s: Seq<char>, t: Seq<char>) -> bool {
    t.len() <= s.len() && s.take(t.len() as int) == t
}

/// The pieces laid end to end with `sep` between each two.
pub open spec fn join(parts: Seq<Seq<char>>, sep: Seq<char>) -> Seq<char>
    decreases parts.len(),
{
    if parts.len() == 0 {
        seq![]
    } else if parts.len() == 1 {
        parts[0]
    } else {
        join(parts.drop_last(), sep) + sep + parts.last()
    }
}

/// The decimal digit for `d`, for `d` below ten.
pub open spec fn digit(d: nat) -> char {
    if d == 0 {
        '0'
    } else if d == 1 {
        '1'
    } else if d == 2 {
        '2'
    } else if d == 3 {
        '3'
    } else if d == 4 {
        '4'
    } else if d == 5 {
        '5'
    } else if d == 6 {
        '6'
    } else if d == 7 {
        '7'
    } else if d == 8 {
        '8'
    } else {
        '9'
    }
}

/// The decimal rendering of a natural number, without sign or leading zeros.
pub open spec fn decimal(n: nat) -> Seq<char>
    decreases n,
{
    if n < 10 {
        seq![digit(n)]
    } else {
        decimal(n / 10).push(digit(n % 10))
    }
}


/// The characters `v[a..b]`.
pub fn copy_range(v: &[char], a: usize, b: usize) -> (r: Vec<char>)
    requires
        a <= b <= v@.len(),
    ensures
        r@ == v@.subrange(a as int, b as int),
{
    let mut out: Vec<char> = Vec::new();
    let mut i = a;
    while i < b
        invariant
            a <= i <= b <= v@.len(),
            out@ == v@.subrange(a as int, i as int),
        decreases b - i,
    {
        out.push(v[i]);
        assert(v@.subrange(a as int, i + 1) == v@.subrange(a as int, i as int).push(v@[i as int]));
        i += 1;
    }
    out
}

/// Position of the first `c` at or after `from`, or the length when there is none.
pub fn find_char_from(v: &[char], from: usize, c: char) -> (i: usize)
    requires
        from <= v@.len(),
    ensures
        from <= i <= v@.len(),
        i == from + find_char(v@.skip(from as int), c),
{
    let mut i = from;
    while i < v.len() && v[i] != c
        invariant
            from <= i <= v@.len(),
            forall|j: int| from <= j < i ==> v@[j] != c,
        decreases v@.len() - i,
    {
        i += 1;
    }
    proof {
        lemma_find_char(v@.skip(from as int), c, i - from);
    }
    i
}

/// Position of the first whitespace at or after `from`, or the length when there is none.
pub fn find_ws_from(v: &[char], from: usize) -> (i: usize)
    requires
        from <= v@.len(),
    ensures
        from <= i <= v@.len(),
        i == from + find_ws(v@.skip(from as int)),
{
    let mut i = from;
    while i < v.len() && !is_whitespace_char(v[i])
        invariant
            from <= i <= v@.len(),
            forall|j: int| from <= j < i ==> !is_ws(v@[j]),
        decreases v@.len() - i,
    {
        i += 1;
    }
    proof {
        lemma_find_ws(v@.skip(from as int), i - from);
    }
    i
}

/// The lines of a text.
pub fn split_lines(v: &[char]) -> (r: Vec<Vec<char>>)
    ensures
        seqs_of(r@) == lines(v@),
{
    let mut out: Vec<Vec<char>> = Vec::new();
    let mut p: usize = 0;
    assert(v@.skip(0) == v@);
    assert(seqs_of(out@) == Seq::<Seq<char>>::empty());
    while p < v.len()
        invariant
            p <= v@.len(),
            lines(v@) == seqs_of(out@) + lines(v@.skip(p as int)),
        decreases v@.len() - p,
    {
        let i = find_char_from(v, p, '\n');
        let ghost rest = v@.skip(p as int);
        if i < v.len() {
            let mut line = copy_range(v, p, i);
            if line.len() > 0 && line[line.len() - 1] == '\r' {
                line.pop();
            }
            proof {
                assert(rest.take(i - p) == v@.subrange(p as int, i as int));
                assert(rest.skip(i - p + 1) == v@.skip(i + 1));
                assert(line@ == strip_cr(rest.take(i - p)));
            }
            let ghost prev = out@;
            out.push(line);
            assert(seqs_of(out@) == seqs_of(prev) + seq![line@]);
            p = i + 1;
        } else {
            let line = copy_range(v, p, v.len());
            proof {
                assert(line@ == rest);
                assert(v@.skip(v@.len() as int) =~= Seq::<char>::empty());
            }
            let ghost prev = out@;
            out.push(line);
            assert(seqs_of(out@) == seqs_of(prev) + seq![line@]);
            p = v.len();
        }
    }
    assert(v@.skip(p as int) =~= Seq::<char>::empty());
    assert(seqs_of(out@) + Seq::<Seq<char>>::empty() == seqs_of(out@));
    out
}

/// The whitespace-separated words of a text.
pub fn split_words(v: &[char]) -> (r: Vec<Vec<char>>)
    ensures
        seqs_of(r@) == words(v@),
{
    let mut out: Vec<Vec<char>> = Vec::new();
    let mut p: usize = 0;
    assert(v@.skip(0) == v@);
    assert(seqs_of(out@) == Seq::<Seq<char>>::empty());
    while p < v.len()
        invariant
            p <= v@.len(),
            words(v@) == seqs_of(out@) + words(v@.skip(p as int)),
        decreases v@.len() - p,
    {
        let ghost rest = v@.skip(p as int);
        if is_whitespace_char(v[p]) {
            assert(rest.drop_first() == v@.skip(p + 1));
            p += 1;
        } else {
            let i = find_ws_from(v, p);
            proof {
                lemma_find_ws_bounds(rest);
                assert(rest.take(i - p) == v@.subrange(p as int, i as int));
                assert(rest.skip(i - p) == v@.skip(i as int));
            }
            let word = copy_range(v, p, i);
            let ghost prev = out@;
            out.push(word);
            assert(seqs_of(out@) == seqs_of(prev) + seq![word@]);
            p = i;
        }
    }
    assert(v@.skip(p as int) =~= Seq::<char>::empty());
    assert(seqs_of(out@) + Seq::<Seq<char>>::empty() == seqs_of(out@));
    out
}

/// The pieces of a text between occurrences of `c`.
pub fn split_char(v: &[char], c: char) -> (r: Vec<Vec<char>>)
    ensures
        seqs_of(r@) == split_on(v@, c),
{
    let mut out: Vec<Vec<char>> = Vec::new();
    let mut p: usize = 0;
    assert(v@.skip(0) == v@);
    assert(seqs_of(out@) == Seq::<Seq<char>>::empty());
    loop
        invariant
            p <= v@.len(),
            split_on(v@, c) == seqs_of(out@) + split_on(v@.skip(p as int), c),
        decreases v@.len() - p,
    {
        let ghost rest = v@.skip(p as int);
        let i = find_char_from(v, p, c);
        let piece = copy_range(v, p, i);
        let ghost prev = out@;
        if i < v.len() {
            proof {
                assert(rest.take(i - p) == v@.subrange(p as int, i as int));
                assert(rest.skip(i - p + 1) == v@.skip(i + 1));
            }
            out.push(piece);
            assert(seqs_of(out@) == seqs_of(prev) + seq![piece@]);
            p = i + 1;
        } else {
            assert(piece@ == rest);
            out.push(piece);
            assert(seqs_of(out@) == seqs_of(prev) + seq![piece@]);
            return out;
        }
    }
}


proof fn lemma_trim_start(s: Seq<char>, a: int)
    requires
        0 <= a <= s.len(),
        forall|j: int| 0 <= j < a ==> is_ws(s[j]),
        a < s.len() ==> !is_ws(s[a]),
    ensures
        trim_start(s) == s.skip(a),
    decreases a,
{
    if a > 0 {
        lemma_trim_start(s.drop_first(), a - 1);
        assert(s.drop_first().skip(a - 1) == s.skip(a));
    } else {
        assert(s.skip(0) == s);
    }
}

proof fn lemma_trim_end(s: Seq<char>, b: int)
    requires
        0 <= b <= s.len(),
        forall|j: int| b <= j < s.len() ==> is_ws(s[j]),
        b > 0 ==> !is_ws(s[b - 1]),
    ensures
        trim_end(s) == s.take(b),
    decreases s.len() - b,
{
    if b < s.len() {
        lemma_trim_end(s.drop_last(), b);
        assert(s.drop_last().take(b) == s.take(b));
    } else {
        assert(s.take(b) == s);
    }
}

proof fn lemma_trim_end_char(s: Seq<char>, c: char, b: int)
    requires
        0 <= b <= s.len(),
        forall|j: int| b <= j < s.len() ==> s[j] == c,
        b > 0 ==> s[b - 1] != c,
    ensures
        trim_end_char(s, c) == s.take(b),
    decreases s.len() - b,
{
    if b < s.len() {
        lemma_trim_end_char(s.drop_last(), c, b);
        assert(s.drop_last().take(b) == s.take(b));
    } else {
        assert(s.take(b) == s);
    }
}

/// The characters without leading and trailing whitespace.
pub fn trim_chars(v: &[char]) -> (r: Vec<char>)
    ensures
        r@ == trim(v@),
{
    let mut a: usize = 0;
    while a < v.len() && is_whitespace_char(v[a])
        invariant
            a <= v@.len(),
            forall|j: int| 0 <= j < a ==> is_ws(v@[j]),
        decreases v@.len() - a,
    {
        a += 1;
    }
    proof {
        lemma_trim_start(v@, a as int);
    }
    let ghost t = v@.skip(a as int);
    let mut b: usize = v.len();
    while b > a && is_whitespace_char(v[b - 1])
        invariant
            a <= b <= v@.len(),
            forall|j: int| b <= j < v@.len() ==> is_ws(v@[j]),
        decreases b,
    {
        b -= 1;
    }
    proof {
        lemma_trim_end(t, b - a);
        assert(t.take(b - a) == v@.subrange(a as int, b as int));
    }
    copy_range(v, a, b)
}

/// The characters without any trailing `c`.
pub fn trim_end_char_chars(v: &[char], c: char) -> (r: Vec<char>)
    ensures
        r@ == trim_end_char(v@, c),
{
    let mut b: usize = v.len();
    while b > 0 && v[b - 1] == c
        invariant
            b <= v@.len(),
            forall|j: int| b <= j < v@.len() ==> v@[j] == c,
        decreases b,
    {
        b -= 1;
    }
    proof {
        lemma_trim_end_char(v@, c, b as int);
        assert(v@.take(b as int) == v@.subrange(0, b as int));
    }
    copy_range(v, 0, b)
}

/// Whether `t` begins `v` at position `i`.
fn matches_at(v: &[char], t: &[char], i: usize) -> (b: bool)
    requires
        i + t@.len() <= v@.len(),
    ensures
        b == (v@.subrange(i as int, i + t@.len()) == t@),
{
    let mut k: usize = 0;
    while k < t.len()
        invariant
            k <= t@.len(),
            i + t@.len() <= v@.len(),
            v@.len() == v.len(),
            forall|j: int| 0 <= j < k ==> v@[i + j] == t@[j],
        decreases t@.len() - k,
    {
        if v[i + k] != t[k] {
            assert(v@.subrange(i as int, i + t@.len())[k as int] != t@[k as int]);
            return false;
        }
        k += 1;
    }
    assert(v@.subrange(i as int, i + t@.len()) =~= t@);
    true
}

/// Whether `t` occurs in `v`.
pub fn contains_chars(v: &[char], t: &[char]) -> (b: bool)
    ensures
        b == contains(v@, t@),
{
    if t.len() > v.len() {
        return false;
    }
    let last = v.len() - t.len();
    let mut i: usize = 0;
    loop
        invariant
            i <= last,
            last + t@.len() == v@.len(),
            forall|j: int| 0 <= j < i ==> #[trigger] v@.subrange(j, j + t@.len()) != t@,
        decreases last - i,
    {
        if matches_at(v, t, i) {
            return true;
        }
        if i == last {
            return false;
        }
        i += 1;
    }
}

/// Whether `v` begins with `t`.
pub fn starts_with_chars(v: &[char], t: &[char]) -> (b: bool)
    ensures
        b == starts_with(v@, t@),
{
    if t.len() > v.len() {
        return false;
    }
    let b = matches_at(v, t, 0);
    assert(v@.subrange(0, t@.len() as int) == v@.take(t@.len() as int));
    b
}

/// Whether the characters spell out the given text.
pub fn eq_text(v: &[char], t: &str) -> (b: bool)
    ensures
        b == (v@ == t@),
{
    let tc = chars_of(t);
    if tc.len() != v.len() {
        return false;
    }
    let b = matches_at(v, tc.as_slice(), 0);
    assert(v@.subrange(0, v@.len() as int) == v@);
    b
}

/// Whether the text holds the given piece.
pub fn text_contains(s: &str, t: &str) -> (b: bool)
    ensures
        b == contains(s@, t@),
{
    let sc = chars_of(s);
    let tc = chars_of(t);
    contains_chars(sc.as_slice(), tc.as_slice())
}

/// The text without leading and trailing whitespace.
pub fn trim_str(s: &str) -> (r: String)
    ensures
        r@ == trim(s@),
{
    let sc = chars_of(s);
    let t = trim_chars(sc.as_slice());
    string_of(t.as_slice())
}

fn digit_char(d: u64) -> (c: char)
    requires
        d < 10,
    ensures
        c == digit(d as nat),
{
    if d == 0 {
        '0'
    } else if d == 1 {
        '1'
    } else if d == 2 {
        '2'
    } else if d == 3 {
        '3'
    } else if d == 4 {
        '4'
    } else if d == 5 {
        '5'
    } else if d == 6 {
        '6'
    } else if d == 7 {
        '7'
    } else if d == 8 {
        '8'
    } else {
        '9'
    }
}

/// The decimal rendering of a number, as `Display` writes an unsigned integer.
pub fn decimal_string(n: u64) -> (r: String)
    ensures
        r@ == decimal(n as nat),
    decreases n,
{
    if n < 10 {
        let mut s = String::new();
        push_char(&mut s, digit_char(n));
        s
    } else {
        let mut s = decimal_string(n / 10);
        push_char(&mut s, digit_char(n % 10));
        s
    }
}

/// The pieces laid end to end with `sep` between each two.
pub fn join_strings(parts: &Vec<String>, sep: &str) -> (r: String)
    ensures
        r@ == join(strs_of(parts@), sep@),
{
    let mut res = String::new();
    let ghost views = strs_of(parts@);
    let mut i: usize = 0;
    while i < parts.len()
        invariant
            i <= parts@.len(),
            views == strs_of(parts@),
            res@ == join(views.take(i as int), sep@),
        decreases parts@.len() - i,
    {
        assert(views.take(i + 1).drop_last() == views.take(i as int));
        if i != 0 {
            res.append(sep);
        }
        res.append(parts[i].as_str());
        i += 1;
    }
    assert(views.take(parts@.len() as int) == views);
    res
}

/// The lowercase form of a text, as `str::to_lowercase` gives it.
pub uninterp spec fn lowercase_of(s: Seq<char>) -> Seq<char>;

/// Calls `str::to_lowercase`. The result is named by `lowercase_of`: the
/// Unicode lowercase mapping is not written out here.
#[verifier::external_body]
pub(crate) fn lowercase(s: &str) -> (r: String)
    ensures
        r@ == lowercase_of(s@),
{
    s.to_lowercase()
}


proof fn lemma_leading_ws(s: Seq<char>) -> (k: int)
    ensures
        0 <= k <= s.len(),
        trim_start(s) == s.skip(k),
        forall|j: int| 0 <= j < k ==> is_ws(#[trigger] s[j]),
        k < s.len() ==> !is_ws(s[k]),
    decreases s.len(),
{
    if s.len() > 0 && is_ws(s[0]) {
        let k1 = lemma_leading_ws(s.drop_first());
        assert(s.drop_first().skip(k1) =~= s.skip(k1 + 1));
        assert forall|j: int| 0 <= j < k1 + 1 implies is_ws(#[trigger] s[j]) by {
            if j > 0 {
                assert(s[j] == s.drop_first()[j - 1]);
            }
        }
        k1 + 1
    } else {
        assert(s.skip(0) =~= s);
        0
    }
}

proof fn lemma_trailing_ws(s: Seq<char>) -> (m: int)
    ensures
        0 <= m <= s.len(),
        trim_end(s) == s.take(m),
        forall|j: int| m <= j < s.len() ==> is_ws(#[trigger] s[j]),
        m > 0 ==> !is_ws(s[m - 1]),
    decreases s.len(),
{
    if s.len() > 0 && is_ws(s.last()) {
        let m1 = lemma_trailing_ws(s.drop_last());
        assert(s.drop_last().take(m1) =~= s.take(m1));
        assert forall|j: int| m1 <= j < s.len() implies is_ws(#[trigger] s[j]) by {
            if j < s.len() - 1 {
                assert(s[j] == s.drop_last()[j]);
            }
        }
        m1
    } else {
        assert(s.take(s.len() as int) =~= s);
        s.len() as int
    }
}

/// Trimming removes exactly the whitespace at both ends: the result is the
/// piece of `s` between positions `a` and `b` that are returned, everything
/// before `a` and from `b` on is whitespace, and a non-empty result starts
/// and ends with a character that is not.
pub proof fn law_trim(s: Seq<char>) -> (ab: (int, int))
    ensures
        0 <= ab.0 <= ab.1 <= s.len(),
        trim(s) == s.subrange(ab.0, ab.1),
        forall|j: int| 0 <= j < ab.0 ==> is_ws(#[trigger] s[j]),
        forall|j: int| ab.1 <= j < s.len() ==> is_ws(#[trigger] s[j]),
        ab.0 < ab.1 ==> !is_ws(s[ab.0]) && !is_ws(s[ab.1 - 1]),
{
    let k = lemma_leading_ws(s);
    let t = s.skip(k);
    let m = lemma_trailing_ws(t);
    assert(t.take(m) =~= s.subrange(k, k + m));
    assert forall|j: int| k + m <= j < s.len() implies is_ws(#[trigger] s[j]) by {
        assert(s[j] == t[j - k]);
    }
    if m > 0 {
        assert(s[k] == t[0]);
        assert(s[k + m - 1] == t[m - 1]);
        if k == s.len() {
            assert(false);
        }
    }
    (k, k + m)
}

/// The words of a text are non-empty and hold no whitespace.
pub proof fn law_words(s: Seq<char>)
    ensures
        forall|w: int| 0 <= w < words(s).len() ==> #[trigger] words(s)[w].len() > 0 && forall|j: int|
            0 <= j < words(s)[w].len() ==> !is_ws(#[trigger] words(s)[w][j]),
    decreases s.len(),
{
    if s.len() > 0 {
        if is_ws(s[0]) {
            law_words(s.drop_first());
            assert(words(s) == words(s.drop_first()));
        } else {
            lemma_find_ws_bounds(s);
            let i = find_ws(s);
            if 1 <= i <= s.len() {
                law_words(s.skip(i));
                let ws = words(s);
                assert(ws == seq![s.take(i)] + words(s.skip(i)));
                assert forall|w: int| 0 <= w < ws.len() implies #[trigger] ws[w].len() > 0 && forall|j: int|
                    0 <= j < ws[w].len() ==> !is_ws(#[trigger] ws[w][j]) by {
                    if w > 0 {
                        assert(ws[w] == words(s.skip(i))[w - 1]);
                    } else {
                        assert(ws[0] == s.take(i));
                        assert forall|j: int| 0 <= j < ws[0].len() implies !is_ws(#[trigger] ws[0][j]) by {
                            assert(ws[0][j] == s[j]);
                        }
                    }
                }
            }
        }
    }
}

/// No line holds a line break.
pub proof fn law_lines(s: Seq<char>)
    ensures
        forall|l: int| 0 <= l < lines(s).len() ==> !#[trigger] lines(s)[l].contains('\n'),
    decreases s.len(),
{
    if s.len() > 0 {
        let i = find_char(s, '\n');
        lemma_find_char_bounds(s, '\n');
        if 0 <= i < s.len() {
            law_lines(s.skip(i + 1));
            let ls = lines(s);
            assert(ls == seq![strip_cr(s.take(i))] + lines(s.skip(i + 1)));
            assert forall|l: int| 0 <= l < ls.len() implies !#[trigger] ls[l].contains('\n') by {
                if l > 0 {
                    assert(ls[l] == lines(s.skip(i + 1))[l - 1]);
                } else {
                    if ls[0].contains('\n') {
                        let j = choose|j: int| 0 <= j < ls[0].len() && ls[0][j] == '\n';
                        assert(s[j] == '\n');
                    }
                }
            }
        } else {
            assert forall|l: int| 0 <= l < lines(s).len() implies !#[trigger] lines(s)[l].contains('\n') by {
                if s.contains('\n') {
                    let j = choose|j: int| 0 <= j < s.len() && s[j] == '\n';
                    assert(s[j] == '\n');
                }
            }
        }
    }
}

proof fn lemma_find_char_bounds(s: Seq<char>, c: char)
    ensures
        0 <= find_char(s, c) <= s.len(),
        find_char(s, c) < s.len() ==> s[find_char(s, c)] == c,
        forall|j: int| 0 <= j < find_char(s, c) ==> s[j] != c,
    decreases s.len(),
{
    if s.len() > 0 && s[0] != c {
        lemma_find_char_bounds(s.drop_first(), c);
        assert forall|j: int| 0 <= j < find_char(s, c) implies s[j] != c by {
            if j > 0 {
                assert(s[j] == s.drop_first()[j - 1]);
            }
        }
    }
}

proof fn lemma_join_cons(a: Seq<char>, rest: Seq<Seq<char>>, sep: Seq<char>)
    requires
        rest.len() > 0,
    ensures
        join(seq![a] + rest, sep) == a + sep + join(rest, sep),
    decreases rest.len(),
{
    let all = seq![a] + rest;
    if rest.len() == 1 {
        assert(all.drop_last() =~= seq![a]);
        assert(all.last() == rest[0]);
        assert(join(rest, sep) == rest[0]);
        assert(all.len() == 2);
        assert(join(all.drop_last(), sep) == a);
        assert(join(all, sep) == join(all.drop_last(), sep) + sep + all.last());
        assert(join(all, sep) =~= a + sep + join(rest, sep));
    } else {
        lemma_join_cons(a, rest.drop_last(), sep);
        assert(all.drop_last() =~= seq![a] + rest.drop_last());
        assert(all.last() == rest.last());
        assert(all.len() > 1);
        assert(join(all, sep) == join(all.drop_last(), sep) + sep + all.last());
        assert(join(rest, sep) == join(rest.drop_last(), sep) + sep + rest.last());
        assert(join(all, sep) =~= a + sep + join(rest, sep));
    }
}

/// Splitting at a character and joining the pieces back with it gives the
/// text again, and no piece holds that character.
pub proof fn law_split_join(s: Seq<char>, c: char)
    ensures
        join(split_on(s, c), seq![c]) == s,
        forall|k: int| 0 <= k < split_on(s, c).len() ==> !#[trigger] split_on(s, c)[k].contains(c),
    decreases s.len(),
{
    lemma_find_char_bounds(s, c);
    let i = find_char(s, c);
    if 0 <= i < s.len() {
        let rest = s.skip(i + 1);
        law_split_join(rest, c);
        let ps = split_on(s, c);
        assert(ps == seq![s.take(i)] + split_on(rest, c));
        lemma_split_nonempty(rest, c);
        lemma_join_cons(s.take(i), split_on(rest, c), seq![c]);
        assert(s.take(i) + seq![c] + rest =~= s);
        assert forall|k: int| 0 <= k < ps.len() implies !#[trigger] ps[k].contains(c) by {
            if k > 0 {
                assert(ps[k] == split_on(rest, c)[k - 1]);
            } else if ps[0].contains(c) {
                let j = choose|j: int| 0 <= j < ps[0].len() && ps[0][j] == c;
                assert(s[j] == c);
            }
        }
    } else {
        assert(split_on(s, c) == seq![s]);
        assert forall|k: int| 0 <= k < split_on(s, c).len() implies !#[trigger] split_on(s, c)[k].contains(c) by {
            if s.contains(c) {
                let j = choose|j: int| 0 <= j < s.len() && s[j] == c;
                assert(s[j] == c);
            }
        }
    }
}

proof fn lemma_split_nonempty(s: Seq<char>, c: char)
    ensures
        split_on(s, c).len() > 0,
{
    lemma_find_char_bounds(s, c);
}

} // verus!
