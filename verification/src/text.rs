//! Character-level helpers on strings, each proved against a spec over `Seq<char>`.
use vstd::prelude::*;
use vstd::string::*;

verus! {

/// `suffix` closes `s`.
pub open spec fn seq_ends_with(s: Seq<char>, suffix: Seq<char>) -> bool {
    &&& suffix.len() <= s.len()
    &&& s.subrange(s.len() - suffix.len(), s.len() as int) == suffix
}

/// `seg` is what follows the last `/` of `s`, or all of `s` when it holds no `/`.
pub open spec fn is_last_segment(s: Seq<char>, seg: Seq<char>) -> bool {
    &&& seq_ends_with(s, seg)
    &&& !seg.contains('/')
    &&& seg.len() < s.len() ==> s[s.len() - seg.len() - 1] == '/'
}

/// What follows the last `/` of `s`, or all of `s` when it holds no `/`.
pub open spec fn tail_after_slash(s: Seq<char>) -> Seq<char>
    decreases s.len(),
{
    if s.len() == 0 {
        s
    } else if s.last() == '/' {
        Seq::empty()
    } else {
        tail_after_slash(s.drop_last()).push(s.last())
    }
}

/// `tail_after_slash` meets the description of a last segment.
pub proof fn lemma_tail_is_last_segment(s: Seq<char>)
    ensures
        is_last_segment(s, tail_after_slash(s)),
    decreases s.len(),
{
    if s.len() == 0 {
        assert(s.subrange(0, 0) =~= s);
    } else if s.last() == '/' {
        assert(s.subrange(s.len() as int, s.len() as int) =~= Seq::<char>::empty());
    } else {
        let p = s.drop_last();
        lemma_tail_is_last_segment(p);
        let t = tail_after_slash(p);
        let u = t.push(s.last());
        assert(s.subrange(s.len() - u.len(), s.len() as int) =~= u) by {
            assert(p.subrange(p.len() - t.len(), p.len() as int) == t);
            assert forall|i: int| 0 <= i < u.len() implies s.subrange(
                s.len() - u.len(),
                s.len() as int,
            )[i] == u[i] by {
                if i < t.len() {
                    assert(p.subrange(p.len() - t.len(), p.len() as int)[i] == t[i]);
                }
            }
        }
        assert(!u.contains('/')) by {
            if u.contains('/') {
                let j = choose|j: int| 0 <= j < u.len() && u[j] == '/';
                if j < t.len() {
                    assert(t[j] == '/');
                }
            }
        }
        if u.len() < s.len() {
            assert(s[s.len() - u.len() - 1] == p[p.len() - t.len() - 1]);
        }
    }
}

/// A string has only one last segment.
pub proof fn lemma_last_segment_unique(s: Seq<char>, a: Seq<char>, b: Seq<char>)
    requires
        is_last_segment(s, a),
        is_last_segment(s, b),
    ensures
        a == b,
{
    if a.len() < b.len() {
        let k = s.len() - a.len() - 1;
        let j = k - (s.len() - b.len());
        assert(s.subrange(s.len() - b.len(), s.len() as int)[j] == s[k]);
        assert(b[j] == '/');
    } else if b.len() < a.len() {
        let k = s.len() - b.len() - 1;
        let j = k - (s.len() - a.len());
        assert(s.subrange(s.len() - a.len(), s.len() as int)[j] == s[k]);
        assert(a[j] == '/');
    }
    assert(a =~= b);
}

/// `s` with every `/` written as `%2F`.
pub open spec fn encode_slashes(s: Seq<char>) -> Seq<char>
    decreases s.len(),
{
    if s.len() == 0 {
        Seq::empty()
    } else if s.last() == '/' {
        encode_slashes(s.drop_last()) + "%2F"@
    } else {
        encode_slashes(s.drop_last()).push(s.last())
    }
}

/// An encoded address holds no `/`, so it stands as one host name in a URI.
pub proof fn law_encoded_has_no_slash(s: Seq<char>)
    ensures
        !encode_slashes(s).contains('/'),
    decreases s.len(),
{
    reveal_strlit("%2F");
    if s.len() > 0 {
        let p = s.drop_last();
        law_encoded_has_no_slash(p);
        let e = encode_slashes(p);
        if s.last() == '/' {
            let r = e + "%2F"@;
            assert(r == encode_slashes(s));
            if r.contains('/') {
                let j = choose|j: int| 0 <= j < r.len() && r[j] == '/';
                if j < e.len() {
                    assert(e[j] == '/');
                }
            }
        } else {
            let r = e.push(s.last());
            if r.contains('/') {
                let j = choose|j: int| 0 <= j < r.len() && r[j] == '/';
                if j < e.len() {
                    assert(e[j] == '/');
                }
            }
        }
    }
}

/// Encoding works character by character: it maps a join to the join of the encodings,
/// leaves a text without `/` as it is, and writes `/` as `%2F`.
pub proof fn law_encode_slashes_by_character(a: Seq<char>, b: Seq<char>)
    ensures
        encode_slashes(a + b) == encode_slashes(a) + encode_slashes(b),
        !a.contains('/') ==> encode_slashes(a) == a,
        encode_slashes(seq!['/']) == "%2F"@,
    decreases b.len(),
{
    if b.len() == 0 {
        assert(a + b =~= a);
        assert(encode_slashes(a) + encode_slashes(b) =~= encode_slashes(a));
    } else {
        law_encode_slashes_by_character(a, b.drop_last());
        assert((a + b).drop_last() =~= a + b.drop_last());
        assert((a + b).last() == b.last());
        if b.last() == '/' {
            assert(encode_slashes(a + b) =~= encode_slashes(a) + encode_slashes(b));
        } else {
            assert(encode_slashes(a + b) =~= encode_slashes(a) + encode_slashes(b));
        }
    }
    if !a.contains('/') {
        lemma_encode_plain(a);
    }
    let one = seq!['/'];
    assert(one.len() == 1 && one.last() == '/');
    assert(one.drop_last() =~= Seq::<char>::empty());
    assert(encode_slashes(one.drop_last()) =~= Seq::<char>::empty());
    assert(Seq::<char>::empty() + "%2F"@ =~= "%2F"@);
}

proof fn lemma_encode_plain(a: Seq<char>)
    requires
        !a.contains('/'),
    ensures
        encode_slashes(a) == a,
    decreases a.len(),
{
    if a.len() > 0 {
        let p = a.drop_last();
        assert(!p.contains('/')) by {
            if p.contains('/') {
                let j = choose|j: int| 0 <= j < p.len() && p[j] == '/';
                assert(a[j] == '/');
            }
        }
        lemma_encode_plain(p);
        assert(a[a.len() - 1] == a.last());
        assert(p.push(a.last()) =~= a);
    }
}

/// The number a text of decimal digits stands for.
pub open spec fn digits_value(s: Seq<char>) -> int
    decreases s.len(),
{
    if s.len() == 0 {
        0
    } else {
        digits_value(s.drop_last()) * 10 + ((s.last() as int) - ('0' as int))
    }
}

/// The decimal writing of `n` is made of the characters `0` to `9`, starts with `0` only
/// for zero, and stands for `n`.
pub proof fn law_decimal_reads_back(n: nat)
    ensures
        decimal(n).len() >= 1,
        forall|i: int| 0 <= i < decimal(n).len() ==> '0' <= #[trigger] decimal(n)[i] <= '9',
        decimal(n)[0] == '0' ==> n == 0,
        digits_value(decimal(n)) == n,
    decreases n,
{
    assert(digit_chars()[0] == '0' && digit_chars()[1] == '1' && digit_chars()[2] == '2'
        && digit_chars()[3] == '3' && digit_chars()[4] == '4' && digit_chars()[5] == '5'
        && digit_chars()[6] == '6' && digit_chars()[7] == '7' && digit_chars()[8] == '8'
        && digit_chars()[9] == '9');
    assert(forall|d: int| 0 <= d < 10 ==> (digit_chars()[d] as int) == ('0' as int) + d);
    if n < 10 {
        assert(decimal(n) == seq![digit_chars()[n as int]]);
        assert(decimal(n).drop_last() =~= Seq::<char>::empty());
        assert(digits_value(Seq::<char>::empty()) == 0);
        assert(decimal(n).last() == digit_chars()[n as int]);
        assert((digit_chars()[n as int] as int) == ('0' as int) + n);
    } else {
        law_decimal_reads_back(n / 10);
        let p = decimal(n / 10);
        assert(decimal(n) == p.push(digit_chars()[(n % 10) as int]));
        assert(decimal(n).drop_last() =~= p);
        assert(forall|i: int| 0 <= i < p.len() ==> decimal(n)[i] == p[i]);
        let d = (n % 10) as int;
        assert((decimal(n).last() as int) - ('0' as int) == d);
        assert(digits_value(decimal(n)) == digits_value(p) * 10 + d);
        assert(n == (n / 10) * 10 + n % 10);
    }
}

/// The ten decimal digits, in order.
pub open spec fn digit_chars() -> Seq<char> {
    seq!['0', '1', '2', '3', '4', '5', '6', '7', '8', '9']
}

/// The decimal writing of `n`, without sign or leading zeros.
pub open spec fn decimal(n: nat) -> Seq<char>
    decreases n,
{
    if n < 10 {
        seq![digit_chars()[n as int]]
    } else {
        decimal(n / 10).push(digit_chars()[(n % 10) as int])
    }
}

/// Whether two strings hold the same characters.
pub fn same_text(a: &str, b: &str) -> (r: bool)
    ensures
        r == (a@ == b@),
{
    let n = a.unicode_len();
    if n != b.unicode_len() {
        return false;
    }
    let mut i: usize = 0;
    while i < n
        invariant
            n == a@.len(),
            n == b@.len(),
            i <= n,
            forall|j: int| 0 <= j < i ==> a@[j] == b@[j],
        decreases n - i,
    {
        if a.get_char(i) != b.get_char(i) {
            return false;
        }
        i = i + 1;
    }
    assert(a@ =~= b@);
    true
}

/// Whether `s` holds the character `c`.
pub fn contains_char(s: &str, c: char) -> (r: bool)
    ensures
        r == s@.contains(c),
{
    let n = s.unicode_len();
    let mut i: usize = 0;
    while i < n
        invariant
            n == s@.len(),
            i <= n,
            forall|j: int| 0 <= j < i ==> s@[j] != c,
        decreases n - i,
    {
        if s.get_char(i) == c {
            assert(s@[i as int] == c);
            return true;
        }
        i = i + 1;
    }
    false
}

/// Whether `s` ends with `suffix`.
pub fn ends_with(s: &str, suffix: &str) -> (r: bool)
    ensures
        r == seq_ends_with(s@, suffix@),
{
    let n = s.unicode_len();
    let m = suffix.unicode_len();
    if m > n {
        return false;
    }
    let start = n - m;
    let mut i: usize = 0;
    while i < m
        invariant
            n == s@.len(),
            m == suffix@.len(),
            start == n - m,
            i <= m,
            forall|j: int| 0 <= j < i ==> s@[start + j] == suffix@[j],
        decreases m - i,
    {
        if s.get_char(start + i) != suffix.get_char(i) {
            assert(s@.subrange(start as int, n as int)[i as int] != suffix@[i as int]);
            return false;
        }
        i = i + 1;
    }
    assert(s@.subrange(start as int, n as int) =~= suffix@);
    true
}

/// What follows the last `/` of `s` (all of `s` when it holds none).
pub fn last_segment(s: &str) -> (r: String)
    ensures
        is_last_segment(s@, r@),
        r@ == tail_after_slash(s@),
{
    let n = s.unicode_len();
    let mut k: usize = n;
    while k > 0
        invariant
            n == s@.len(),
            k <= n,
            forall|j: int| k <= j < n ==> s@[j] != '/',
        ensures
            k == 0 || s@[k - 1] == '/',
        decreases k,
    {
        if s.get_char(k - 1) == '/' {
            break;
        }
        k = k - 1;
    }
    let seg = s.substring_char(k, n);
    let r = String::from_str(seg);
    assert(r@ =~= s@.subrange(k as int, n as int));
    assert(!r@.contains('/')) by {
        if r@.contains('/') {
            let j = choose|j: int| 0 <= j < r@.len() && r@[j] == '/';
            assert(s@[k + j] == '/');
        }
    }
    proof {
        lemma_tail_is_last_segment(s@);
        lemma_last_segment_unique(s@, r@, tail_after_slash(s@));
    }
    r
}

/// `s` with every `/` written as `%2F`.
pub fn encode_slashes_in(s: &str) -> (r: String)
    ensures
        r@ == encode_slashes(s@),
{
    let n = s.unicode_len();
    let mut out = String::new();
    let mut i: usize = 0;
    while i < n
        invariant
            n == s@.len(),
            i <= n,
            out@ == encode_slashes(s@.subrange(0, i as int)),
        decreases n - i,
    {
        let c = s.get_char(i);
        let ghost before = s@.subrange(0, i as int);
        let ghost after = s@.subrange(0, i + 1);
        assert(after.drop_last() =~= before);
        assert(after.last() == c);
        if c == '/' {
            out.append("%2F");
        } else {
            let one = s.substring_char(i, i + 1);
            assert(one@ =~= seq![c]);
            out.append(one);
            assert(out@ =~= encode_slashes(before).push(c));
        }
        i = i + 1;
    }
    assert(s@.subrange(0, n as int) =~= s@);
    out
}

/// The single-character string of decimal digit `d`.
fn digit_text(d: u16) -> (r: &'static str)
    requires
        d < 10,
    ensures
        r@ == seq![digit_chars()[d as int]],
{
    let digits = "0123456789";
    proof {
        reveal_strlit("0123456789");
    }
    let r = digits.substring_char(d as usize, d as usize + 1);
    assert(r@ =~= seq![digit_chars()[d as int]]);
    r
}

/// Appends the decimal writing of `n` to `out`.
pub fn push_decimal(out: &mut String, n: u16)
    ensures
        final(out)@ == old(out)@ + decimal(n as nat),
    decreases n,
{
    if n >= 10 {
        push_decimal(out, n / 10);
        out.append(digit_text(n % 10));
        assert(final(out)@ =~= old(out)@ + decimal(n as nat));
    } else {
        out.append(digit_text(n));
    }
}

/// The decimal writing of `n`.
pub fn decimal_text(n: u16) -> (r: String)
    ensures
        r@ == decimal(n as nat),
{
    let mut out = String::new();
    push_decimal(&mut out, n);
    assert(out@ =~= decimal(n as nat));
    out
}

} // verus!
