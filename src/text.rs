//! Character-level text handling: whitespace, trimming, line splitting and
//! substring search, each stated over `Seq<char>`.
use vstd::prelude::*;
use vstd::string::*;

verus! {

/// Unicode `White_Space`, the set that `char::is_whitespace` tests.
pub open spec fn is_ws(c: char) -> bool {
    let u = c as u32;
    (0x09 <= u && u <= 0x0D) || u == 0x20 || u == 0x85 || u == 0xA0 || u == 0x1680
        || (0x2000 <= u && u <= 0x200A) || u == 0x2028 || u == 0x2029 || u == 0x202F
        || u == 0x205F || u == 0x3000
}

/// The text with its leading whitespace removed.
pub open spec fn trim_start(s: Seq<char>) -> Seq<char>
    decreases s.len(),
{
    if s.len() > 0 && is_ws(s[0]) {
        trim_start(s.drop_first())
    } else {
        s
    }
}

/// The text with its trailing whitespace removed.
pub open spec fn trim_end(s: Seq<char>) -> Seq<char>
    decreases s.len(),
{
    if s.len() > 0 && is_ws(s.last()) {
        trim_end(s.drop_last())
    } else {
        s
    }
}

/// The text with whitespace removed from both ends.
pub open spec fn trim(s: Seq<char>) -> Seq<char> {
    trim_end(trim_start(s))
}

/// The pieces of `s` between `'\n'` characters; always at least one.
pub open spec fn split_nl(s: Seq<char>) -> Seq<Seq<char>>
    decreases s.len(),
{
    if s.len() == 0 {
        seq![Seq::empty()]
    } else {
        let p = split_nl(s.drop_last());
        if s.last() == '\n' {
            p.push(Seq::empty())
        } else if p.len() == 0 {
            seq![seq![s.last()]]
        } else {
            p.update(p.len() - 1, p.last().push(s.last()))
        }
    }
}

/// A line without its terminating carriage return, if any.
pub open spec fn strip_cr(l: Seq<char>) -> Seq<char> {
    if l.len() > 0 && l.last() == '\r' {
        l.drop_last()
    } else {
        l
    }
}

/// The lines of `s` as `str::lines` yields them: split at `'\n'`, no empty
/// piece after a final newline, and a `'\r'` just before a newline dropped.
pub open spec fn lines(s: Seq<char>) -> Seq<Seq<char>> {
    let p = split_nl(s);
    let ended = p.drop_last().map_values(|l: Seq<char>| strip_cr(l));
    if p.last().len() == 0 {
        ended
    } else {
        ended.push(p.last())
    }
}

/// `pat` occurs in `s` at index `i`.
pub open spec fn occurs_at(s: Seq<char>, pat: Seq<char>, i: int) -> bool {
    0 <= i && i + pat.len() <= s.len() && s.subrange(i, i + pat.len()) == pat
}

/// `pat` occurs somewhere in `s`.
pub open spec fn contains(s: Seq<char>, pat: Seq<char>) -> bool {
    exists|i: int| occurs_at(s, pat, i)
}

/// The part of `s` before its first `c`, or all of `s` if it holds none.
pub open spec fn before_char(s: Seq<char>, c: char) -> Seq<char>
    decreases s.len(),
{
    if s.len() == 0 || s[0] == c {
        Seq::empty()
    } else {
        seq![s[0]] + before_char(s.drop_first(), c)
    }
}

/// Whether `c` is whitespace, as `char::is_whitespace` tells.
pub fn is_whitespace(c: char) -> (r: bool)
    ensures
        r == is_ws(c),
{
    let u = c as u32;
    (0x09 <= u && u <= 0x0D) || u == 0x20 || u == 0x85 || u == 0xA0 || u == 0x1680
        || (0x2000 <= u && u <= 0x200A) || u == 0x2028 || u == 0x2029 || u == 0x202F
        || u == 0x205F || u == 0x3000
}

proof fn lemma_trim_start_skip(s: Seq<char>, i: int)
    requires
        0 <= i < s.len(),
        is_ws(s[i]),
    ensures
        trim_start(s.subrange(i, s.len() as int)) == trim_start(s.subrange(i + 1, s.len() as int)),
{
    assert(s.subrange(i, s.len() as int).drop_first() =~= s.subrange(i + 1, s.len() as int));
}

proof fn lemma_trim_end_skip(s: Seq<char>, j: int)
    requires
        0 < j <= s.len(),
        is_ws(s[j - 1]),
    ensures
        trim_end(s.subrange(0, j)) == trim_end(s.subrange(0, j - 1)),
{
    assert(s.subrange(0, j).drop_last() =~= s.subrange(0, j - 1));
}

/// The text with whitespace removed from both ends, as `str::trim` gives it.
pub fn trim_text(s: &str) -> (r: String)
    ensures
        r@ == trim(s@),
{
    let n = s.unicode_len();
    let mut i: usize = 0;
    assert(s@.subrange(0, n as int) =~= s@);
    while i < n && is_whitespace(s.get_char(i))
        invariant
            i <= n,
            n == s@.len(),
            trim_start(s@) == trim_start(s@.subrange(i as int, n as int)),
        decreases n - i,
    {
        proof {
            lemma_trim_start_skip(s@, i as int);
        }
        i = i + 1;
    }
    let ghost t = s@.subrange(i as int, n as int);
    assert(i < n ==> t[0] == s@[i as int]);
    assert(trim_start(t) == t);
    assert(t.subrange(0, n - i) =~= t);
    let mut j: usize = n;
    while j > i && is_whitespace(s.get_char(j - 1))
        invariant
            i <= j <= n,
            n == s@.len(),
            t == s@.subrange(i as int, n as int),
            trim_end(t) == trim_end(t.subrange(0, j - i)),
        decreases j,
    {
        proof {
            lemma_trim_end_skip(t, (j - i) as int);
        }
        j = j - 1;
    }
    assert(t.subrange(0, j - i) =~= s@.subrange(i as int, j as int));
    s.substring_char(i, j).to_owned()
}

/// One line of `s`, the characters from `start` up to `end`, without a
/// carriage return at its end.
fn line_between(s: &str, start: usize, end: usize) -> (r: String)
    requires
        start <= end <= s@.len(),
    ensures
        r@ == strip_cr(s@.subrange(start as int, end as int)),
{
    if end > start && s.get_char(end - 1) == '\r' {
        s.substring_char(start, end - 1).to_owned()
    } else {
        s.substring_char(start, end).to_owned()
    }
}

/// The lines of `s`, as `str::lines` yields them.
pub fn split_lines(s: &str) -> (r: Vec<String>)
    ensures
        r@.len() == lines(s@).len(),
        forall|k: int| 0 <= k < r@.len() ==> #[trigger] r@[k]@ == lines(s@)[k],
{
    let n = s.unicode_len();
    let mut out: Vec<String> = Vec::new();
    let mut start: usize = 0;
    let mut i: usize = 0;
    let ghost mut done: Seq<Seq<char>> = Seq::empty();
    assert(s@.subrange(0, 0) =~= Seq::<char>::empty());
    assert(split_nl(Seq::<char>::empty()) =~= done.push(s@.subrange(0, 0)));
    while i < n
        invariant
            start <= i <= n,
            n == s@.len(),
            split_nl(s@.subrange(0, i as int)) == done.push(s@.subrange(start as int, i as int)),
            out@.len() == done.len(),
            forall|k: int| 0 <= k < done.len() ==> #[trigger] out@[k]@ == strip_cr(done[k]),
        decreases n - i,
    {
        let c = s.get_char(i);
        let ghost pre = s@.subrange(0, i as int);
        let ghost cur = s@.subrange(start as int, i as int);
        assert(s@.subrange(0, i + 1).drop_last() =~= pre);
        assert(s@.subrange(0, i + 1).last() == c);
        if c == '\n' {
            let line = line_between(s, start, i);
            out.push(line);
            proof {
                done = done.push(cur);
                assert(s@.subrange(i + 1, i + 1) =~= Seq::<char>::empty());
                assert(split_nl(s@.subrange(0, i + 1)) =~= done.push(s@.subrange(i + 1, i + 1)));
            }
            start = i + 1;
        } else {
            proof {
                assert(s@.subrange(start as int, i + 1) =~= cur.push(c));
                assert(split_nl(s@.subrange(0, i + 1)) =~= done.push(s@.subrange(start as int, i + 1)));
            }
        }
        i = i + 1;
    }
    assert(s@.subrange(0, n as int) =~= s@);
    assert(split_nl(s@).drop_last() =~= done);
    assert(lines(s@).subrange(0, done.len() as int) =~= done.map_values(|l: Seq<char>| strip_cr(l)));
    if start < n {
        out.push(s.substring_char(start, n).to_owned());
    }
    assert(out@.len() == lines(s@).len());
    out
}

/// Whether `pat` occurs in `s` at index `i`.
fn occurs_at_exec(s: &str, pat: &str, i: usize, n: usize, m: usize) -> (r: bool)
    requires
        n == s@.len(),
        m == pat@.len(),
        i + m <= n,
    ensures
        r == occurs_at(s@, pat@, i as int),
{
    let mut j: usize = 0;
    while j < m
        invariant
            j <= m,
            n == s@.len(),
            m == pat@.len(),
            i + m <= n,
            forall|k: int| 0 <= k < j ==> s@[i + k] == pat@[k],
        decreases m - j,
    {
        if s.get_char(i + j) != pat.get_char(j) {
            assert(s@.subrange(i as int, i + m)[j as int] != pat@[j as int]);
            return false;
        }
        j = j + 1;
    }
    assert(s@.subrange(i as int, i + m) =~= pat@);
    true
}

proof fn lemma_before_char(s: Seq<char>, c: char, k: int)
    requires
        0 <= k <= s.len(),
        forall|j: int| 0 <= j < k ==> s[j] != c,
        k == s.len() || s[k] == c,
    ensures
        before_char(s, c) == s.subrange(0, k),
    decreases k,
{
    if k > 0 {
        lemma_before_char(s.drop_first(), c, k - 1);
        assert(s.subrange(0, k) =~= seq![s[0]] + s.drop_first().subrange(0, k - 1));
    } else {
        assert(s.subrange(0, k) =~= Seq::<char>::empty());
    }
}

/// The index of the first `c` in `s`, or the length of `s` if it holds none.
pub fn find_char(s: &str, c: char) -> (k: usize)
    ensures
        k <= s@.len(),
        forall|j: int| 0 <= j < k ==> s@[j] != c,
        k == s@.len() || s@[k as int] == c,
        before_char(s@, c) == s@.subrange(0, k as int),
{
    let n = s.unicode_len();
    let mut k: usize = 0;
    while k < n && s.get_char(k) != c
        invariant
            k <= n,
            n == s@.len(),
            forall|j: int| 0 <= j < k ==> s@[j] != c,
        decreases n - k,
    {
        k = k + 1;
    }
    proof {
        lemma_before_char(s@, c, k as int);
    }
    k
}

/// The part of `s` before its first tab, or all of it if it holds none.
pub fn text_before_tab(s: &str) -> (r: String)
    ensures
        r@ == before_char(s@, '\t'),
{
    let k = find_char(s, '\t');
    s.substring_char(0, k).to_owned()
}

/// `s` split around its first `c`, as `str::split_once` does it.
pub open spec fn split_once(s: Seq<char>, c: char) -> Option<(Seq<char>, Seq<char>)> {
    let b = before_char(s, c);
    if b.len() == s.len() {
        None
    } else {
        Some((b, s.subrange(b.len() as int + 1, s.len() as int)))
    }
}

/// `s` split around its first `c`, or `None` if it holds none.
pub fn split_once_char(s: &str, c: char) -> (r: Option<(String, String)>)
    ensures
        r is None <==> split_once(s@, c) is None,
        r is Some ==> r->Some_0.0@ == split_once(s@, c)->Some_0.0 && r->Some_0.1@ == split_once(
            s@,
            c,
        )->Some_0.1,
{
    let k = find_char(s, c);
    let n = s.unicode_len();
    if k == n {
        None
    } else {
        Some((s.substring_char(0, k).to_owned(), s.substring_char(k + 1, n).to_owned()))
    }
}

/// `i` is the index of the first occurrence of `pat` in `s`.
pub open spec fn first_at(s: Seq<char>, pat: Seq<char>, i: int) -> bool {
    occurs_at(s, pat, i) && forall|k: int| 0 <= k < i ==> !occurs_at(s, pat, k)
}

/// The index of the first occurrence of `pat` in `s`, or `None`.
pub fn find_text(s: &str, pat: &str) -> (r: Option<usize>)
    ensures
        r is None <==> !contains(s@, pat@),
        r is Some ==> first_at(s@, pat@, r->Some_0 as int),
{
    let n = s.unicode_len();
    let m = pat.unicode_len();
    if m > n {
        return None;
    }
    if m == 0 {
        assert(s@.subrange(0, 0) =~= pat@);
        assert(occurs_at(s@, pat@, 0));
        return Some(0);
    }
    let mut i: usize = 0;
    while i < n - m + 1
        invariant
            n == s@.len(),
            m == pat@.len(),
            0 < m <= n,
            i <= n - m + 1,
            forall|k: int| 0 <= k < i ==> !occurs_at(s@, pat@, k),
        decreases n + 1 - i,
    {
        if occurs_at_exec(s, pat, i, n, m) {
            return Some(i);
        }
        i = i + 1;
    }
    assert forall|k: int| !occurs_at(s@, pat@, k) by {
        if 0 <= k < i {
        }
    }
    None
}

/// Whether `pat` occurs somewhere in `s`, as `str::contains` tells.
pub fn contains_text(s: &str, pat: &str) -> (r: bool)
    ensures
        r == contains(s@, pat@),
{
    find_text(s, pat).is_some()
}

/// The second of the fields that `sep` separates in `s`, or nothing if `s`
/// holds no `sep`; as `s.split(sep).nth(1)` gives it.
pub open spec fn second_field(s: Seq<char>, sep: Seq<char>) -> Seq<char> {
    if !contains(s, sep) {
        Seq::empty()
    } else {
        let i = choose|i: int| first_at(s, sep, i);
        let rest = s.subrange(i + sep.len(), s.len() as int);
        if !contains(rest, sep) {
            rest
        } else {
            let j = choose|j: int| first_at(rest, sep, j);
            rest.subrange(0, j)
        }
    }
}

proof fn lemma_first_at_unique(s: Seq<char>, pat: Seq<char>, i: int, j: int)
    requires
        first_at(s, pat, i),
        first_at(s, pat, j),
    ensures
        i == j,
{
    if i < j {
        assert(!occurs_at(s, pat, i));
    } else if j < i {
        assert(!occurs_at(s, pat, j));
    }
}

/// The second of the fields that `sep` separates in `s`, or an empty string.
pub fn second_field_text(s: &str, sep: &str) -> (r: String)
    ensures
        r@ == second_field(s@, sep@),
{
    match find_text(s, sep) {
        None => String::new(),
        Some(i) => {
            proof {
                let c = choose|c: int| first_at(s@, sep@, c);
                lemma_first_at_unique(s@, sep@, i as int, c);
            }
            let n = s.unicode_len();
            let m = sep.unicode_len();
            let rest = s.substring_char(i + m, n);
            match find_text(rest, sep) {
                None => rest.to_owned(),
                Some(j) => {
                    proof {
                        let c = choose|c: int| first_at(rest@, sep@, c);
                        lemma_first_at_unique(rest@, sep@, j as int, c);
                    }
                    rest.substring_char(0, j).to_owned()
                },
            }
        },
    }
}

/// The whitespace-separated words of `s`, as `str::split_whitespace` yields
/// them.
pub open spec fn words(s: Seq<char>) -> Seq<Seq<char>>
    decreases s.len(),
{
    if s.len() == 0 {
        Seq::empty()
    } else {
        let w = words(s.drop_last());
        let c = s.last();
        if is_ws(c) {
            w
        } else if s.len() >= 2 && !is_ws(s[s.len() - 2]) && w.len() > 0 {
            w.update(w.len() - 1, w.last().push(c))
        } else {
            w.push(seq![c])
        }
    }
}

/// The whitespace-separated words of `s`.
pub fn split_words(s: &str) -> (r: Vec<String>)
    ensures
        r@.len() == words(s@).len(),
        forall|k: int| 0 <= k < r@.len() ==> #[trigger] r@[k]@ == words(s@)[k],
{
    let n = s.unicode_len();
    let mut out: Vec<String> = Vec::new();
    let mut start: usize = 0;
    let mut in_word = false;
    let mut i: usize = 0;
    let ghost mut done: Seq<Seq<char>> = Seq::empty();
    assert(s@.subrange(0, 0) =~= Seq::<char>::empty());
    while i < n
        invariant
            start <= i <= n,
            n == s@.len(),
            in_word ==> start < i && !is_ws(s@[i - 1]),
            !in_word ==> (i == 0 || is_ws(s@[i - 1])),
            in_word ==> words(s@.subrange(0, i as int)) == done.push(
                s@.subrange(start as int, i as int),
            ),
            !in_word ==> words(s@.subrange(0, i as int)) == done,
            out@.len() == done.len(),
            forall|k: int| 0 <= k < done.len() ==> #[trigger] out@[k]@ == done[k],
        decreases n - i,
    {
        let c = s.get_char(i);
        let ghost pre = s@.subrange(0, i as int);
        assert(s@.subrange(0, i + 1).drop_last() =~= pre);
        assert(s@.subrange(0, i + 1).last() == c);
        if is_whitespace(c) {
            if in_word {
                out.push(s.substring_char(start, i).to_owned());
                proof {
                    done = done.push(s@.subrange(start as int, i as int));
                }
            }
            in_word = false;
        } else {
            if in_word {
                assert(s@.subrange(0, i + 1)[i - 1] == s@[i - 1]);
                assert(s@.subrange(start as int, i + 1) =~= s@.subrange(start as int, i as int).push(c));
                assert(words(s@.subrange(0, i + 1)) =~= done.push(s@.subrange(start as int, i + 1)));
            } else {
                if i > 0 {
                    assert(s@.subrange(0, i + 1)[i - 1] == s@[i - 1]);
                }
                start = i;
                assert(s@.subrange(i as int, i + 1) =~= seq![c]);
                assert(words(s@.subrange(0, i + 1)) =~= done.push(s@.subrange(i as int, i + 1)));
            }
            in_word = true;
        }
        i = i + 1;
    }
    assert(s@.subrange(0, n as int) =~= s@);
    if in_word {
        out.push(s.substring_char(start, n).to_owned());
        proof {
            done = done.push(s@.subrange(start as int, n as int));
        }
    }
    out
}

/// The value of a sequence of decimal digits.
pub open spec fn digits_value(d: Seq<char>) -> nat
    decreases d.len(),
{
    if d.len() == 0 {
        0
    } else {
        10 * digits_value(d.drop_last()) + ((d.last() as nat) - ('0' as nat)) as nat
    }
}

/// Every character of `d` is an ASCII digit.
pub open spec fn all_digits(d: Seq<char>) -> bool {
    forall|k: int| 0 <= k < d.len() ==> '0' <= #[trigger] d[k] && d[k] <= '9'
}

/// The digits of a `u32` numeral: those after an optional leading `+`.
pub open spec fn numeral_digits(t: Seq<char>) -> Seq<char> {
    if t.len() > 0 && t[0] == '+' {
        t.drop_first()
    } else {
        t
    }
}

/// `t` reads as a `u32`, as `u32::from_str` accepts it: an optional `+`, then
/// one or more decimal digits whose value fits.
pub open spec fn is_u32_numeral(t: Seq<char>) -> bool {
    let d = numeral_digits(t);
    d.len() > 0 && all_digits(d) && digits_value(d) <= u32::MAX
}

proof fn lemma_digits_value_grows(d: Seq<char>, k: int)
    requires
        0 <= k <= d.len(),
        all_digits(d),
    ensures
        digits_value(d.subrange(0, k)) <= digits_value(d),
    decreases d.len(),
{
    if k < d.len() {
        let p = d.drop_last();
        assert(all_digits(p)) by {
            assert forall|j: int| 0 <= j < p.len() implies '0' <= #[trigger] p[j] && p[j] <= '9' by {
                assert(p[j] == d[j]);
            }
        }
        lemma_digits_value_grows(p, k);
        assert(p.subrange(0, k) =~= d.subrange(0, k));
    } else {
        assert(d.subrange(0, k) =~= d);
    }
}

/// Parses `t` as a `u32`, or `None` if it is no such numeral.
pub fn parse_u32(t: &str) -> (r: Option<u32>)
    ensures
        r is Some <==> is_u32_numeral(t@),
        r is Some ==> r->Some_0 as nat == digits_value(numeral_digits(t@)),
{
    let n = t.unicode_len();
    let start: usize = if n > 0 && t.get_char(0) == '+' { 1 } else { 0 };
    let ghost d = numeral_digits(t@);
    assert(d =~= t@.subrange(start as int, n as int));
    if start == n {
        return None;
    }
    let mut acc: u64 = 0;
    let mut i: usize = start;
    assert(d.subrange(0, 0) =~= Seq::<char>::empty());
    while i < n
        invariant
            start <= i <= n,
            n == t@.len(),
            d == t@.subrange(start as int, n as int),
            d == numeral_digits(t@),
            all_digits(d.subrange(0, i - start)),
            acc as nat == digits_value(d.subrange(0, i - start)),
            acc <= u32::MAX,
        decreases n - i,
    {
        let c = t.get_char(i);
        assert(d[i - start] == c);
        if c < '0' || c > '9' {
            assert(!('0' <= d[i - start] && d[i - start] <= '9'));
            assert(!all_digits(d));
            return None;
        }
        let ghost prev = d.subrange(0, i - start);
        let ghost next = d.subrange(0, i + 1 - start);
        assert(next.drop_last() =~= prev);
        assert(next.last() == c);
        assert(digits_value(next) == 10 * digits_value(prev) + ((c as nat) - ('0' as nat)));
        assert(all_digits(next)) by {
            assert forall|j: int| 0 <= j < next.len() implies '0' <= #[trigger] next[j] && next[j] <= '9' by {
                if j < prev.len() {
                    assert(next[j] == prev[j]);
                }
            }
        }
        acc = acc * 10 + (c as u64 - '0' as u64);
        if acc > 0xFFFF_FFFF {
            assert(digits_value(next) > u32::MAX);
            proof {
                if all_digits(d) {
                    lemma_digits_value_grows(d, i + 1 - start);
                }
            }
            return None;
        }
        i = i + 1;
    }
    assert(d.subrange(0, n - start) =~= d);
    Some(acc as u32)
}

} // verus!
