//! Character-level text helpers shared by the rest of the library.
use vstd::prelude::*;
use vstd::string::*;

verus! {

/// Strict lexicographic order on character sequences: the order of `str`'s
/// `Ord` impl (comparing UTF-8 bytes orders strings as comparing their
/// chars by code point does).
pub open spec fn chars_lt(a: Seq<char>, b: Seq<char>) -> bool
    decreases a.len(),
{
    if a.len() == 0 {
        b.len() > 0
    } else if b.len() == 0 {
        false
    } else if a[0] < b[0] {
        true
    } else if a[0] > b[0] {
        false
    } else {
        chars_lt(a.drop_first(), b.drop_first())
    }
}

pub proof fn lemma_chars_lt_irreflexive(a: Seq<char>)
    ensures
        !chars_lt(a, a),
    decreases a.len(),
{
    if a.len() > 0 {
        lemma_chars_lt_irreflexive(a.drop_first());
    }
}

pub proof fn lemma_chars_lt_asymmetric(a: Seq<char>, b: Seq<char>)
    requires
        chars_lt(a, b),
    ensures
        !chars_lt(b, a),
    decreases a.len(),
{
    if a.len() > 0 && b.len() > 0 && a[0] == b[0] {
        lemma_chars_lt_asymmetric(a.drop_first(), b.drop_first());
    }
}

pub proof fn lemma_chars_lt_transitive(a: Seq<char>, b: Seq<char>, c: Seq<char>)
    requires
        chars_lt(a, b),
        chars_lt(b, c),
    ensures
        chars_lt(a, c),
    decreases a.len(),
{
    if a.len() > 0 && b.len() > 0 && c.len() > 0 && a[0] == b[0] && b[0] == c[0] {
        lemma_chars_lt_transitive(a.drop_first(), b.drop_first(), c.drop_first());
    }
}

pub proof fn lemma_chars_lt_total(a: Seq<char>, b: Seq<char>)
    requires
        a != b,
    ensures
        chars_lt(a, b) || chars_lt(b, a),
    decreases a.len(),
{
    if a.len() > 0 && b.len() > 0 && a[0] == b[0] {
        if a.drop_first() == b.drop_first() {
            assert(a =~= seq![a[0]] + a.drop_first());
            assert(b =~= seq![b[0]] + b.drop_first());
        }
        lemma_chars_lt_total(a.drop_first(), b.drop_first());
    }
    if a.len() == 0 && b.len() == 0 {
        assert(a =~= b);
    }
}

/// `a` sorts before `b` when they agree up to position `i` and `a`'s
/// character there is the smaller.
pub proof fn lemma_chars_lt_at(a: Seq<char>, b: Seq<char>, i: int)
    requires
        0 <= i < a.len(),
        i < b.len(),
        a.take(i) == b.take(i),
        a[i] < b[i],
    ensures
        chars_lt(a, b),
    decreases i,
{
    if i > 0 {
        assert(a[0] == a.take(i)[0]);
        assert(b[0] == b.take(i)[0]);
        assert(a.drop_first().take(i - 1) =~= a.take(i).drop_first());
        assert(b.drop_first().take(i - 1) =~= b.take(i).drop_first());
        lemma_chars_lt_at(a.drop_first(), b.drop_first(), i - 1);
    }
}

/// The characters of `s`, in order.
pub fn str_chars(s: &str) -> (v: Vec<char>)
    ensures
        v@ == s@,
{
    let n = s.unicode_len();
    let mut v: Vec<char> = Vec::new();
    let mut i: usize = 0;
    while i < n
        invariant
            n == s@.len(),
            i <= n,
            v@ == s@.take(i as int),
        decreases n - i,
    {
        let c = s.get_char(i);
        v.push(c);
        i = i + 1;
        assert(v@ =~= s@.take(i as int));
    }
    assert(v@ =~= s@);
    v
}

/// Whether `a` sorts strictly before `b`.
pub fn chars_less(a: &[char], b: &[char]) -> (r: bool)
    ensures
        r == chars_lt(a@, b@),
{
    let mut i: usize = 0;
    assert(a@.skip(0) =~= a@);
    assert(b@.skip(0) =~= b@);
    while i < a.len() && i < b.len() && a[i] == b[i]
        invariant
            i <= a.len(),
            i <= b.len(),
            chars_lt(a@, b@) == chars_lt(a@.skip(i as int), b@.skip(i as int)),
        decreases a.len() - i,
    {
        assert(a@.skip(i as int).drop_first() =~= a@.skip(i + 1));
        assert(b@.skip(i as int).drop_first() =~= b@.skip(i + 1));
        i = i + 1;
    }
    if i == a.len() {
        i < b.len()
    } else if i == b.len() {
        false
    } else {
        a[i] < b[i]
    }
}

/// Whether `a` sorts strictly before `b`.
pub fn str_less(a: &str, b: &str) -> (r: bool)
    ensures
        r == chars_lt(a@, b@),
{
    let av = str_chars(a);
    let bv = str_chars(b);
    chars_less(av.as_slice(), bv.as_slice())
}

/// Whether the two character sequences are equal.
pub fn chars_equal(a: &[char], b: &[char]) -> (r: bool)
    ensures
        r == (a@ == b@),
{
    if a.len() != b.len() {
        return false;
    }
    let mut i: usize = 0;
    while i < a.len()
        invariant
            a.len() == b.len(),
            i <= a.len(),
            a@.take(i as int) == b@.take(i as int),
        decreases a.len() - i,
    {
        if a[i] != b[i] {
            assert(a@[i as int] == a@.take(i + 1)[i as int]);
            return false;
        }
        assert(a@.take(i + 1) =~= a@.take(i as int).push(a@[i as int]));
        assert(b@.take(i + 1) =~= b@.take(i as int).push(b@[i as int]));
        i = i + 1;
    }
    assert(a@ =~= a@.take(a.len() as int));
    assert(b@ =~= b@.take(b.len() as int));
    true
}

/// Appends `c` to `s`: a call of std's `String::push`, which std documents
/// as appending the given char to the end of the string.
#[verifier::external_body]
pub fn push_char(s: &mut String, c: char)
    ensures
        final(s)@ == old(s)@.push(c),
{
    s.push(c);
}

/// A new `String` holding the characters of `v`.
pub fn string_from_chars(v: &[char]) -> (r: String)
    ensures
        r@ == v@,
{
    let mut r = String::new();
    let mut i: usize = 0;
    while i < v.len()
        invariant
            i <= v.len(),
            r@ == v@.take(i as int),
        decreases v.len() - i,
    {
        push_char(&mut r, v[i]);
        i = i + 1;
        assert(r@ =~= v@.take(i as int));
    }
    assert(v@.take(v.len() as int) =~= v@);
    r
}

/// `a` followed by `b`.
pub fn join2(a: &str, b: &str) -> (r: String)
    ensures
        r@ == a@ + b@,
{
    let mut r = a.to_owned();
    r.append(b);
    r
}

/// The decimal digit for `d` (taken modulo ten).
pub open spec fn digit_char(d: nat) -> char {
    let d = d % 10;
    if d == 0 { '0' }
    else if d == 1 { '1' }
    else if d == 2 { '2' }
    else if d == 3 { '3' }
    else if d == 4 { '4' }
    else if d == 5 { '5' }
    else if d == 6 { '6' }
    else if d == 7 { '7' }
    else if d == 8 { '8' }
    else { '9' }
}

/// The decimal rendering of `n`, without sign or leading zeros.
pub open spec fn decimal(n: nat) -> Seq<char>
    decreases n,
{
    if n < 10 {
        seq![digit_char(n)]
    } else {
        decimal(n / 10).push(digit_char(n % 10))
    }
}

fn digit(d: u64) -> (c: char)
    requires
        d < 10,
    ensures
        c == digit_char(d as nat),
{
    if d == 0 { '0' }
    else if d == 1 { '1' }
    else if d == 2 { '2' }
    else if d == 3 { '3' }
    else if d == 4 { '4' }
    else if d == 5 { '5' }
    else if d == 6 { '6' }
    else if d == 7 { '7' }
    else if d == 8 { '8' }
    else { '9' }
}

/// The decimal rendering of `n`, as `{}` formats a `u64`.
pub fn u64_to_decimal(n: u64) -> (r: String)
    ensures
        r@ == decimal(n as nat),
{
    let mut m = n;
    let mut acc: Vec<char> = Vec::new();
    while m >= 10
        invariant
            decimal(n as nat) == decimal(m as nat) + acc@,
        decreases m,
    {
        let c = digit(m % 10);
        acc.insert(0, c);
        assert(decimal(m as nat) == decimal((m / 10) as nat).push(c));
        m = m / 10;
        assert(decimal(n as nat) =~= decimal(m as nat) + acc@);
    }
    acc.insert(0, digit(m));
    assert(decimal(n as nat) =~= acc@);
    string_from_chars(acc.as_slice())
}

/// Whether the two strings are equal.
pub fn str_eq(a: &str, b: &str) -> (r: bool)
    ensures
        r == (a@ == b@),
{
    let av = str_chars(a);
    let bv = str_chars(b);
    chars_equal(av.as_slice(), bv.as_slice())
}

/// `s` with every occurrence of the non-empty pattern `p` removed, scanning
/// left to right without overlaps (what `str::replace(p, "")` gives).
pub open spec fn remove_all(s: Seq<char>, p: Seq<char>) -> Seq<char>
    decreases s.len(),
{
    if p.len() == 0 || s.len() < p.len() {
        s
    } else if s.take(p.len() as int) == p {
        remove_all(s.skip(p.len() as int), p)
    } else {
        seq![s[0]] + remove_all(s.drop_first(), p)
    }
}

/// Whether `p` occurs in `v` at position `i`.
fn occurs_at(v: &Vec<char>, i: usize, p: &Vec<char>) -> (r: bool)
    requires
        i <= v.len(),
    ensures
        r == (i + p@.len() <= v@.len() && v@.skip(i as int).take(p@.len() as int) == p@),
{
    if p.len() > v.len() - i {
        return false;
    }
    let mut k: usize = 0;
    while k < p.len()
        invariant
            i + p@.len() <= v@.len(),
            v@.len() == v.len(),
            p@.len() == p.len(),
            k <= p.len(),
            forall|j: int| 0 <= j < k ==> v@[i + j] == p@[j],
        decreases p.len() - k,
    {
        if v[i + k] != p[k] {
            assert(v@.skip(i as int).take(p@.len() as int)[k as int] == v@[i + k]);
            return false;
        }
        k = k + 1;
    }
    assert(v@.skip(i as int).take(p@.len() as int) =~= p@);
    true
}

/// `s` with every occurrence of `p` removed, as `s.replace(p, "")` gives.
pub fn remove_all_str(s: &str, p: &str) -> (r: String)
    requires
        p@.len() > 0,
    ensures
        r@ == remove_all(s@, p@),
{
    let v = str_chars(s);
    let pv = str_chars(p);
    let mut out: Vec<char> = Vec::new();
    let mut i: usize = 0;
    assert(v@.skip(0) =~= v@);
    while i < v.len()
        invariant
            i <= v.len(),
            pv@ == p@,
            pv@.len() > 0,
            remove_all(v@, pv@) == out@ + remove_all(v@.skip(i as int), pv@),
        decreases v.len() - i,
    {
        let ghost rest = v@.skip(i as int);
        if occurs_at(&v, i, &pv) {
            assert(rest.skip(pv@.len() as int) =~= v@.skip(i + pv@.len()));
            i = i + pv.len();
        } else {
            proof {
                if rest.len() >= pv@.len() {
                    assert(rest.drop_first() =~= v@.skip(i + 1));
                } else {
                    // too short for another occurrence: everything left stays
                    assert(remove_all(rest, pv@) == rest);
                    assert(remove_all(v@.skip(i + 1), pv@) == v@.skip(i + 1));
                    assert(rest =~= seq![v@[i as int]] + v@.skip(i + 1));
                }
            }
            let ghost before = out@;
            out.push(v[i]);
            assert(out@ =~= before + seq![v@[i as int]]);
            i = i + 1;
        }
    }
    assert(v@.skip(v@.len() as int) =~= Seq::<char>::empty());
    string_from_chars(out.as_slice())
}


/// Whether no occurrence of `p` in `a + b` starts inside `a` and ends
/// inside `b`.
pub open spec fn no_crossing(a: Seq<char>, b: Seq<char>, p: Seq<char>) -> bool {
    forall|i: int|
        0 <= i < a.len() && a.len() < i + p.len() && i + p.len() <= a.len() + b.len() ==> #[trigger] (
        a + b).subrange(i, i + p.len()) != p
}

/// Removing a pattern from a concatenation removes it from each part, when
/// no occurrence straddles the join.
pub proof fn lemma_remove_all_concat(a: Seq<char>, b: Seq<char>, p: Seq<char>)
    requires
        p.len() > 0,
        no_crossing(a, b, p),
    ensures
        remove_all(a + b, p) == remove_all(a, p) + remove_all(b, p),
    decreases a.len(),
{
    let s = a + b;
    let n = p.len() as int;
    if a.len() == 0 {
        assert(s =~= b);
        assert(remove_all(a, p) =~= Seq::<char>::empty());
        assert(remove_all(a, p) + remove_all(b, p) =~= remove_all(b, p));
    } else if s.len() < n {
        assert(remove_all(a, p) == a);
        assert(remove_all(b, p) == b);
    } else if s.take(n) == p {
        if a.len() < n {
            assert(s.subrange(0, n) =~= s.take(n));
            assert(s.subrange(0, 0 + n) != p);
        }
        assert(a.take(n) =~= s.take(n));
        let a2 = a.skip(n);
        assert(s.skip(n) =~= a2 + b);
        assert forall|i: int|
            0 <= i < a2.len() && a2.len() < i + n && i + n <= a2.len() + b.len() implies #[trigger] (
            a2 + b).subrange(i, i + n) != p by {
            assert((a2 + b).subrange(i, i + n) =~= s.subrange(i + n, i + n + n));
            assert(s.subrange(i + n, (i + n) + n) != p);
        }
        lemma_remove_all_concat(a2, b, p);
    } else {
        let a2 = a.drop_first();
        assert(s.drop_first() =~= a2 + b);
        assert forall|i: int|
            0 <= i < a2.len() && a2.len() < i + n && i + n <= a2.len() + b.len() implies #[trigger] (
            a2 + b).subrange(i, i + n) != p by {
            assert((a2 + b).subrange(i, i + n) =~= s.subrange(i + 1, i + 1 + n));
            assert(s.subrange(i + 1, (i + 1) + n) != p);
        }
        lemma_remove_all_concat(a2, b, p);
        assert(s[0] == a[0]);
        if a.len() < n {
            assert(remove_all(a, p) == a);
            assert(remove_all(a2, p) == a2);
            assert(seq![a[0]] + a2 =~= a);
            assert(seq![s[0]] + (a2 + remove_all(b, p)) =~= a + remove_all(b, p));
        } else {
            assert(a.take(n) =~= s.take(n));
            assert(seq![s[0]] + (remove_all(a2, p) + remove_all(b, p)) =~= (seq![a[0]]
                + remove_all(a2, p)) + remove_all(b, p));
        }
    }
}

/// Every occurrence is removed, not only the first: removing `p` from
/// `a + p + b` gives what removing it from `a` and from `b` gives, joined,
/// when no occurrence starting in `a` reaches past it.
pub proof fn lemma_remove_all_split(a: Seq<char>, p: Seq<char>, b: Seq<char>)
    requires
        p.len() > 0,
        no_crossing(a, p + b, p),
    ensures
        remove_all(a + p + b, p) == remove_all(a, p) + remove_all(b, p),
{
    lemma_remove_all_concat(a, p + b, p);
    assert(a + p + b =~= a + (p + b));
    let q = p + b;
    assert(q.take(p.len() as int) =~= p);
    assert(q.skip(p.len() as int) =~= b);
    assert(remove_all(q, p) == remove_all(b, p));
}

/// A text in which the pattern's first character never appears is left as
/// it is.
pub proof fn lemma_remove_all_absent(s: Seq<char>, p: Seq<char>)
    requires
        p.len() > 0,
        !s.contains(p[0]),
    ensures
        remove_all(s, p) == s,
    decreases s.len(),
{
    if s.len() >= p.len() {
        assert(s.take(p.len() as int)[0] == s[0]);
        assert(s.contains(s[0]));
        assert(s.take(p.len() as int) != p);
        let t = s.drop_first();
        assert(!t.contains(p[0])) by {
            if t.contains(p[0]) {
                let k = choose|k: int| 0 <= k < t.len() && t[k] == p[0];
                assert(s[k + 1] == p[0]);
            }
        }
        lemma_remove_all_absent(t, p);
        assert(seq![s[0]] + t =~= s);
    }
}

/// A text in which the pattern never occurs is left as it is.
pub proof fn lemma_remove_all_none(s: Seq<char>, p: Seq<char>)
    requires
        p.len() > 0,
        forall|i: int|
            0 <= i && i + p.len() <= s.len() ==> #[trigger] s.subrange(i, i + p.len()) != p,
    ensures
        remove_all(s, p) == s,
    decreases s.len(),
{
    let n = p.len() as int;
    if s.len() >= n {
        assert(s.subrange(0, 0 + n) =~= s.take(n));
        let t = s.drop_first();
        assert forall|i: int| 0 <= i && i + n <= t.len() implies #[trigger] t.subrange(i, i + n)
            != p by {
            assert(t.subrange(i, i + n) =~= s.subrange(i + 1, (i + 1) + n));
        }
        lemma_remove_all_none(t, p);
        assert(seq![s[0]] + t =~= s);
    }
}

/// No occurrence straddles the end of a text in which the pattern's first
/// character never appears.
pub proof fn lemma_no_crossing_absent(a: Seq<char>, b: Seq<char>, p: Seq<char>)
    requires
        p.len() > 0,
        !a.contains(p[0]),
    ensures
        no_crossing(a, b, p),
{
    assert forall|i: int|
        0 <= i < a.len() && a.len() < i + p.len() && i + p.len() <= a.len() + b.len() implies #[trigger] (
        a + b).subrange(i, i + p.len()) != p by {
        assert((a + b).subrange(i, i + p.len())[0] == a[i]);
        assert(a.contains(a[i]));
    }
}

/// Whether `c` has Unicode's White_Space property, the test that
/// `char::is_whitespace` makes.
pub open spec fn is_white(c: char) -> bool {
    let v = c as u32;
    ||| 0x9 <= v <= 0xd
    ||| v == 0x20
    ||| v == 0x85
    ||| v == 0xa0
    ||| v == 0x1680
    ||| 0x2000 <= v <= 0x200a
    ||| v == 0x2028
    ||| v == 0x2029
    ||| v == 0x202f
    ||| v == 0x205f
    ||| v == 0x3000
}

/// Whether `c` is white space (Unicode White_Space).
pub fn char_is_white(c: char) -> (r: bool)
    ensures
        r == is_white(c),
{
    let v = c as u32;
    (0x9 <= v && v <= 0xd) || v == 0x20 || v == 0x85 || v == 0xa0 || v == 0x1680 || (0x2000 <= v
        && v <= 0x200a) || v == 0x2028 || v == 0x2029 || v == 0x202f || v == 0x205f || v == 0x3000
}

/// `s` without its leading white space.
pub open spec fn trim_start(s: Seq<char>) -> Seq<char>
    decreases s.len(),
{
    if s.len() > 0 && is_white(s[0]) {
        trim_start(s.drop_first())
    } else {
        s
    }
}

/// `s` without its trailing white space.
pub open spec fn trim_end(s: Seq<char>) -> Seq<char>
    decreases s.len(),
{
    if s.len() > 0 && is_white(s.last()) {
        trim_end(s.drop_last())
    } else {
        s
    }
}

/// `s` without leading and trailing white space, as `str::trim` gives it.
pub open spec fn trimmed(s: Seq<char>) -> Seq<char> {
    trim_end(trim_start(s))
}

/// The characters of `v` from `lo` up to `hi`, as a `String`.
fn string_of_range(v: &Vec<char>, lo: usize, hi: usize) -> (r: String)
    requires
        lo <= hi <= v.len(),
    ensures
        r@ == v@.subrange(lo as int, hi as int),
{
    let mut r = String::new();
    let mut i: usize = lo;
    while i < hi
        invariant
            lo <= i <= hi <= v.len(),
            r@ == v@.subrange(lo as int, i as int),
        decreases hi - i,
    {
        push_char(&mut r, v[i]);
        i = i + 1;
        assert(r@ =~= v@.subrange(lo as int, i as int));
    }
    r
}

/// `s` without leading and trailing white space.
pub fn trim_text(s: &str) -> (r: String)
    ensures
        r@ == trimmed(s@),
{
    let v = str_chars(s);
    let n = v.len();
    let mut i: usize = 0;
    assert(v@.skip(0) =~= v@);
    while i < n && char_is_white(v[i])
        invariant
            i <= n == v@.len(),
            trim_start(v@) == trim_start(v@.skip(i as int)),
        decreases n - i,
    {
        assert(v@.skip(i as int).drop_first() =~= v@.skip(i + 1));
        i = i + 1;
    }
    assert(trim_start(v@) == v@.skip(i as int));
    let mut j: usize = n;
    assert(v@.skip(i as int) =~= v@.subrange(i as int, n as int));
    while j > i && char_is_white(v[j - 1])
        invariant
            i <= j <= n == v@.len(),
            trim_end(v@.subrange(i as int, n as int)) == trim_end(v@.subrange(i as int, j as int)),
        decreases j,
    {
        assert(v@.subrange(i as int, j as int).drop_last() =~= v@.subrange(i as int, j - 1));
        j = j - 1;
    }
    assert(trim_end(v@.subrange(i as int, j as int)) == v@.subrange(i as int, j as int));
    string_of_range(&v, i, j)
}

/// The white-space separated words of `s`, read left to right: a white
/// character ends a word, a non-white one extends the word that the
/// previous character belongs to or starts a new one.
pub open spec fn words(s: Seq<char>) -> Seq<Seq<char>>
    decreases s.len(),
{
    if s.len() == 0 {
        Seq::empty()
    } else {
        let w = words(s.drop_last());
        let c = s.last();
        if is_white(c) {
            w
        } else if s.len() >= 2 && !is_white(s[s.len() - 2]) {
            w.update(w.len() - 1, w.last().push(c))
        } else {
            w.push(seq![c])
        }
    }
}

proof fn lemma_words_nonempty(s: Seq<char>)
    requires
        s.len() > 0,
        !is_white(s.last()),
    ensures
        words(s).len() > 0,
    decreases s.len(),
{
    if s.len() >= 2 && !is_white(s[s.len() - 2]) {
        lemma_words_nonempty(s.drop_last());
    }
}

/// The white-space separated words of `s`, as `str::split_whitespace`
/// yields them.
pub fn split_words(s: &str) -> (r: Vec<String>)
    ensures
        r@.map_values(|w: String| w@) == words(s@),
{
    let v = str_chars(s);
    let mut out: Vec<String> = Vec::new();
    let mut i: usize = 0;
    let mut in_word = false;
    assert(v@.take(0) =~= Seq::<char>::empty());
    while i < v.len()
        invariant
            i <= v.len(),
            v@ == s@,
            out@.map_values(|w: String| w@) == words(v@.take(i as int)),
            in_word == (i > 0 && !is_white(v@[i - 1])),
        decreases v.len() - i,
    {
        let c = v[i];
        let ghost pre = v@.take(i as int);
        let ghost cur = v@.take(i + 1);
        assert(cur.drop_last() =~= pre);
        assert(cur.last() == c);
        if char_is_white(c) {
            in_word = false;
        } else if in_word {
            proof {
                assert(pre.last() == v@[i - 1]);
                lemma_words_nonempty(pre);
            }
            let k = out.len() - 1;
            let ghost before = out@;
            push_char(&mut out[k], c);
            assert(out@.map_values(|w: String| w@) =~= before.map_values(|w: String| w@).update(
                k as int,
                before[k as int]@.push(c),
            ));
        } else {
            let mut w = String::new();
            push_char(&mut w, c);
            let ghost before = out@;
            out.push(w);
            assert(out@.map_values(|w: String| w@) =~= before.map_values(|w: String| w@).push(
                seq![c],
            ));
            in_word = true;
        }
        i = i + 1;
    }
    assert(v@.take(v.len() as int) =~= v@);
    out
}

} // verus!
