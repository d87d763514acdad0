//! Verified string utilities: splitting on a separator, joining, trimming,
//! decimal rendering, and character classification, all specified over
//! `Seq<char>` views.

use vstd::prelude::*;

verus! {

/// The pieces of `s` between occurrences of `sep`, in order.  Splitting the
/// empty sequence yields one empty piece, as `str::split` does.
pub open spec fn spec_split(s: Seq<char>, sep: char) -> Seq<Seq<char>>
    decreases s.len(),
{
    if s.len() == 0 {
        seq![Seq::<char>::empty()]
    } else if s[0] == sep {
        seq![Seq::<char>::empty()] + spec_split(s.drop_first(), sep)
    } else {
        let rest = spec_split(s.drop_first(), sep);
        seq![seq![s[0]] + rest[0]] + rest.drop_first()
    }
}

pub proof fn lemma_spec_split_nonempty(s: Seq<char>, sep: char)
    ensures
        spec_split(s, sep).len() >= 1,
    decreases s.len(),
{
    if s.len() == 0 {
    } else if s[0] == sep {
        lemma_spec_split_nonempty(s.drop_first(), sep);
    } else {
        lemma_spec_split_nonempty(s.drop_first(), sep);
    }
}

/// A sequence without the separator splits into itself alone.
pub proof fn lemma_split_no_sep(s: Seq<char>, sep: char)
    requires
        forall|j: int| 0 <= j < s.len() ==> s[j] != sep,
    ensures
        spec_split(s, sep) == seq![s],
    decreases s.len(),
{
    if s.len() == 0 {
        assert(s =~= Seq::<char>::empty());
        assert(spec_split(s, sep) =~= seq![s]);
    } else {
        lemma_split_no_sep(s.drop_first(), sep);
        assert(seq![s[0]] + s.drop_first() =~= s);
        assert(spec_split(s, sep) =~= seq![s]);
    }
}

/// Splitting at the first separator: the piece before it, then the split of
/// what follows it.
pub proof fn lemma_split_first_sep(s: Seq<char>, sep: char, k: int)
    requires
        0 <= k < s.len(),
        s[k] == sep,
        forall|j: int| 0 <= j < k ==> s[j] != sep,
    ensures
        spec_split(s, sep) == seq![s.take(k)] + spec_split(s.skip(k + 1), sep),
    decreases k,
{
    if k == 0 {
        assert(s.take(0) =~= Seq::<char>::empty());
        assert(s.skip(1) =~= s.drop_first());
        assert(spec_split(s, sep) =~= seq![s.take(0)] + spec_split(s.skip(1), sep));
    } else {
        let d = s.drop_first();
        assert(d[k - 1] == sep);
        assert(forall|j: int| 0 <= j < k - 1 ==> d[j] != sep);
        lemma_split_first_sep(d, sep, k - 1);
        lemma_spec_split_nonempty(d.skip(k), sep);
        assert(d.take(k - 1) =~= s.take(k).drop_first());
        assert(d.skip(k) =~= s.skip(k + 1));
        let rest = spec_split(d, sep);
        assert(rest == seq![d.take(k - 1)] + spec_split(s.skip(k + 1), sep));
        assert(rest[0] == d.take(k - 1));
        assert(rest.drop_first() =~= spec_split(s.skip(k + 1), sep));
        assert(seq![s[0]] + d.take(k - 1) =~= s.take(k));
        assert(spec_split(s, sep) =~= seq![s.take(k)] + spec_split(s.skip(k + 1), sep));
    }
}

/// `str::split(sep)` on the character level, returning owned pieces.
pub fn split_char(s: &str, sep: char) -> (parts: Vec<String>)
    ensures
        parts@.map_values(|p: String| p@) == spec_split(s@, sep),
{
    let n = s.unicode_len();
    let mut parts: Vec<String> = Vec::new();
    let mut start: usize = 0;
    let mut i: usize = 0;
    proof {
        assert(s@.skip(0) =~= s@);
    }
    while i < n
        invariant
            0 <= start <= i <= n,
            n == s@.len(),
            forall|j: int| start <= j < i ==> s@[j] != sep,
            spec_split(s@, sep) == parts@.map_values(|p: String| p@) + spec_split(
                s@.skip(start as int),
                sep,
            ),
        decreases n - i,
    {
        let c = s.get_char(i);
        if c == sep {
            let piece = s.substring_char(start, i).to_owned();
            proof {
                let t = s@.skip(start as int);
                let k = i - start;
                assert(t[k as int] == sep);
                assert(forall|j: int| 0 <= j < k ==> t[j] != sep);
                lemma_split_first_sep(t, sep, k as int);
                assert(t.take(k as int) =~= s@.subrange(start as int, i as int));
                assert(t.skip(k as int + 1) =~= s@.skip(i as int + 1));
                assert((parts@.push(piece)).map_values(|p: String| p@) =~= parts@.map_values(
                    |p: String| p@,
                ).push(piece@));
            }
            parts.push(piece);
            start = i + 1;
        }
        i = i + 1;
    }
    let piece = s.substring_char(start, n).to_owned();
    proof {
        let t = s@.skip(start as int);
        assert(forall|j: int| 0 <= j < t.len() ==> t[j] != sep);
        lemma_split_no_sep(t, sep);
        assert(t =~= s@.subrange(start as int, n as int));
        assert((parts@.push(piece)).map_values(|p: String| p@) =~= parts@.map_values(
            |p: String| p@,
        ).push(piece@));
        assert(parts@.map_values(|p: String| p@).push(piece@) + Seq::<Seq<char>>::empty()
            =~= parts@.map_values(|p: String| p@).push(piece@));
    }
    parts.push(piece);
    proof {
        assert(parts@.map_values(|p: String| p@) =~= spec_split(s@, sep));
    }
    parts
}

/// The piece before the first `sep` and the piece after it, or `None` when
/// `sep` does not occur, as `str::split_once` does.
pub open spec fn spec_split_once(s: Seq<char>, sep: char) -> Option<(Seq<char>, Seq<char>)>
    decreases s.len(),
{
    if s.len() == 0 {
        None
    } else if s[0] == sep {
        Some((Seq::<char>::empty(), s.drop_first()))
    } else {
        match spec_split_once(s.drop_first(), sep) {
            None => None,
            Some(p) => Some((seq![s[0]] + p.0, p.1)),
        }
    }
}

pub proof fn lemma_split_once_found(s: Seq<char>, sep: char, k: int)
    requires
        0 <= k < s.len(),
        s[k] == sep,
        forall|j: int| 0 <= j < k ==> s[j] != sep,
    ensures
        spec_split_once(s, sep) == Some((s.take(k), s.skip(k + 1))),
    decreases k,
{
    if k == 0 {
        assert(s.take(0) =~= Seq::<char>::empty());
        assert(s.skip(1) =~= s.drop_first());
    } else {
        let d = s.drop_first();
        lemma_split_once_found(d, sep, k - 1);
        assert(seq![s[0]] + d.take(k - 1) =~= s.take(k));
        assert(d.skip(k) =~= s.skip(k + 1));
    }
}

pub proof fn lemma_split_once_none(s: Seq<char>, sep: char)
    requires
        forall|j: int| 0 <= j < s.len() ==> s[j] != sep,
    ensures
        spec_split_once(s, sep) is None,
    decreases s.len(),
{
    if s.len() == 0 {
    } else {
        lemma_split_once_none(s.drop_first(), sep);
    }
}

/// `str::split_once(sep)` on the character level, returning owned pieces.
pub fn split_once_char(s: &str, sep: char) -> (r: Option<(String, String)>)
    ensures
        match r {
            Some(p) => spec_split_once(s@, sep) == Some((p.0@, p.1@)),
            None => spec_split_once(s@, sep) is None,
        },
{
    let n = s.unicode_len();
    let mut i: usize = 0;
    while i < n
        invariant
            0 <= i <= n,
            n == s@.len(),
            forall|j: int| 0 <= j < i ==> s@[j] != sep,
        decreases n - i,
    {
        if s.get_char(i) == sep {
            let before = s.substring_char(0, i).to_owned();
            let after = s.substring_char(i + 1, n).to_owned();
            proof {
                lemma_split_once_found(s@, sep, i as int);
                assert(s@.take(i as int) =~= s@.subrange(0, i as int));
                assert(s@.skip(i as int + 1) =~= s@.subrange(i as int + 1, n as int));
            }
            return Some((before, after));
        }
        i = i + 1;
    }
    proof {
        lemma_split_once_none(s@, sep);
    }
    None
}

/// Character-wise string equality, usable where `==` on `&str` has no
/// specification.
pub fn str_eq(a: &str, b: &str) -> (r: bool)
    ensures
        r == (a@ == b@),
{
    let na = a.unicode_len();
    let nb = b.unicode_len();
    if na != nb {
        return false;
    }
    let mut i: usize = 0;
    while i < na
        invariant
            0 <= i <= na,
            na == a@.len(),
            na == b@.len(),
            forall|j: int| 0 <= j < i ==> a@[j] == b@[j],
        decreases na - i,
    {
        if a.get_char(i) != b.get_char(i) {
            return false;
        }
        i = i + 1;
    }
    proof {
        assert(a@ =~= b@);
    }
    true
}

/// `s` with every leading `c` removed, as `str::trim_start_matches(c)` does.
pub open spec fn spec_trim_leading(s: Seq<char>, c: char) -> Seq<char>
    decreases s.len(),
{
    if s.len() > 0 && s[0] == c {
        spec_trim_leading(s.drop_first(), c)
    } else {
        s
    }
}

pub proof fn lemma_trim_leading_at(s: Seq<char>, c: char, i: int)
    requires
        0 <= i <= s.len(),
        forall|j: int| 0 <= j < i ==> s[j] == c,
        i < s.len() ==> s[i] != c,
    ensures
        spec_trim_leading(s, c) == s.skip(i),
    decreases i,
{
    if i == 0 {
        assert(s.skip(0) =~= s);
    } else {
        let d = s.drop_first();
        lemma_trim_leading_at(d, c, i - 1);
        assert(d.skip(i - 1) =~= s.skip(i));
    }
}

/// `str::trim_start_matches(c)` on the character level.
pub fn trim_leading(s: &str, c: char) -> (r: String)
    ensures
        r@ == spec_trim_leading(s@, c),
{
    let n = s.unicode_len();
    let mut i: usize = 0;
    while i < n && s.get_char(i) == c
        invariant
            0 <= i <= n,
            n == s@.len(),
            forall|j: int| 0 <= j < i ==> s@[j] == c,
        decreases n - i,
    {
        i = i + 1;
    }
    let r = s.substring_char(i, n).to_owned();
    proof {
        lemma_trim_leading_at(s@, c, i as int);
        assert(s@.subrange(i as int, n as int) =~= s@.skip(i as int));
    }
    r
}

/// The pieces joined with `sep` between adjacent pieces.
pub open spec fn spec_join(parts: Seq<Seq<char>>, sep: char) -> Seq<char>
    decreases parts.len(),
{
    if parts.len() == 0 {
        Seq::<char>::empty()
    } else if parts.len() == 1 {
        parts[0]
    } else {
        parts[0] + seq![sep] + spec_join(parts.drop_first(), sep)
    }
}

pub proof fn lemma_join_push(parts: Seq<Seq<char>>, x: Seq<char>, sep: char)
    requires
        parts.len() >= 1,
    ensures
        spec_join(parts.push(x), sep) == spec_join(parts, sep) + seq![sep] + x,
    decreases parts.len(),
{
    let pushed = parts.push(x);
    if parts.len() == 1 {
        assert(pushed.drop_first() =~= seq![x]);
        assert(spec_join(pushed.drop_first(), sep) == x);
        assert(spec_join(pushed, sep) =~= parts[0] + seq![sep] + x);
    } else {
        assert(pushed.drop_first() =~= parts.drop_first().push(x));
        lemma_join_push(parts.drop_first(), x, sep);
        assert(spec_join(pushed, sep) =~= spec_join(parts, sep) + seq![sep] + x);
    }
}

/// Joins the pieces with `'&'`, as the query strings of this crate need.
pub fn join_amp(parts: &Vec<String>) -> (r: String)
    ensures
        r@ == spec_join(parts@.map_values(|p: String| p@), '&'),
{
    proof {
        reveal_strlit("&");
    }
    let ghost views = parts@.map_values(|p: String| p@);
    let mut r = String::new();
    if parts.len() == 0 {
        return r;
    }
    r.append(parts[0].as_str());
    let mut i: usize = 1;
    proof {
        assert(views.take(1) =~= seq![views[0]]);
        assert(r@ =~= spec_join(views.take(1), '&'));
    }
    while i < parts.len()
        invariant
            1 <= i <= parts@.len(),
            views == parts@.map_values(|p: String| p@),
            r@ == spec_join(views.take(i as int), '&'),
        decreases parts@.len() - i,
    {
        r.append("&");
        r.append(parts[i].as_str());
        proof {
            reveal_strlit("&");
            lemma_join_push(views.take(i as int), views[i as int], '&');
            assert(views.take(i as int).push(views[i as int]) =~= views.take(i as int + 1));
            assert("&"@ =~= seq!['&']);
            assert(r@ =~= spec_join(views.take(i as int + 1), '&'));
        }
        i = i + 1;
    }
    proof {
        assert(views.take(parts@.len() as int) =~= views);
    }
    r
}

/// The decimal digit characters.
pub open spec fn digit_char(n: int) -> char {
    if n == 0 {
        '0'
    } else if n == 1 {
        '1'
    } else if n == 2 {
        '2'
    } else if n == 3 {
        '3'
    } else if n == 4 {
        '4'
    } else if n == 5 {
        '5'
    } else if n == 6 {
        '6'
    } else if n == 7 {
        '7'
    } else if n == 8 {
        '8'
    } else {
        '9'
    }
}

/// The usual decimal rendering of a nonnegative integer, no leading zeros.
pub open spec fn spec_decimal(n: int) -> Seq<char>
    decreases n,
{
    if n < 10 {
        seq![digit_char(n)]
    } else {
        spec_decimal(n / 10) + seq![digit_char(n % 10)]
    }
}

fn digit_str(d: u64) -> (r: &'static str)
    requires
        d < 10,
    ensures
        r@ == seq![digit_char(d as int)],
{
    proof {
        reveal_strlit("0");
        reveal_strlit("1");
        reveal_strlit("2");
        reveal_strlit("3");
        reveal_strlit("4");
        reveal_strlit("5");
        reveal_strlit("6");
        reveal_strlit("7");
        reveal_strlit("8");
        reveal_strlit("9");
    }
    let r = if d == 0 {
        "0"
    } else if d == 1 {
        "1"
    } else if d == 2 {
        "2"
    } else if d == 3 {
        "3"
    } else if d == 4 {
        "4"
    } else if d == 5 {
        "5"
    } else if d == 6 {
        "6"
    } else if d == 7 {
        "7"
    } else if d == 8 {
        "8"
    } else {
        "9"
    };
    proof {
        assert(r@ =~= seq![digit_char(d as int)]);
    }
    r
}

/// Renders `n` in decimal.
pub fn decimal_string(n: u64) -> (r: String)
    ensures
        r@ == spec_decimal(n as int),
    decreases n,
{
    if n < 10 {
        String::from_str(digit_str(n))
    } else {
        let mut s = decimal_string(n / 10);
        s.append(digit_str(n % 10));
        s
    }
}

/// Hexadecimal digits in either case, as `char::is_ascii_hexdigit` accepts.
pub open spec fn is_ascii_hex_digit(c: char) -> bool {
    (48 <= c as u32 && c as u32 <= 57) || (97 <= c as u32 && c as u32 <= 102) || (65 <= c as u32
        && c as u32 <= 70)
}

/// Lowercase hexadecimal digits, the alphabet of generated keys.
pub open spec fn is_lower_hex_digit(c: char) -> bool {
    (48 <= c as u32 && c as u32 <= 57) || (97 <= c as u32 && c as u32 <= 102)
}

/// Decides `is_ascii_hex_digit`.
pub fn char_is_hex_digit(c: char) -> (r: bool)
    ensures
        r == is_ascii_hex_digit(c),
{
    let u = c as u32;
    (48 <= u && u <= 57) || (97 <= u && u <= 102) || (65 <= u && u <= 70)
}

/// The view of an optional string.
pub open spec fn opt_view(o: Option<String>) -> Option<Seq<char>> {
    match o {
        Some(s) => Some(s@),
        None => None,
    }
}

/// Whether `p` is a prefix of `s`.
pub open spec fn spec_starts_with(s: Seq<char>, p: Seq<char>) -> bool {
    p.len() <= s.len() && s.take(p.len() as int) == p
}

/// Whether `p` occurs in `s` as a contiguous run.
pub open spec fn spec_contains(s: Seq<char>, p: Seq<char>) -> bool {
    exists|i: int| 0 <= i && i + p.len() <= s.len() && #[trigger] s.subrange(i, i + p.len()) == p
}

/// A pattern absent from both parts stays out of their concatenation when no
/// character of the right part's first position occurs in the pattern past
/// its start: no run can then cross the seam.
pub proof fn lemma_concat_avoids_pattern_by_first(a: Seq<char>, b: Seq<char>, p: Seq<char>)
    requires
        p.len() > 0,
        !spec_contains(a, p),
        !spec_contains(b, p),
        forall|k: int| 1 <= k < p.len() ==> p[k] != b[0],
    ensures
        !spec_contains(a + b, p),
{
    let s = a + b;
    assert forall|i: int| 0 <= i && i + p.len() <= s.len() implies #[trigger] s.subrange(
        i,
        i + p.len(),
    ) != p by {
        if s.subrange(i, i + p.len()) == p {
            if i + p.len() <= a.len() {
                assert(a.subrange(i, i + p.len()) =~= s.subrange(i, i + p.len()));
                assert(spec_contains(a, p));
            } else if i >= a.len() {
                assert(b.subrange(i - a.len(), i - a.len() + p.len()) =~= s.subrange(
                    i,
                    i + p.len(),
                ));
                assert(spec_contains(b, p));
            } else {
                let k = a.len() - i;
                assert(1 <= k < p.len());
                assert(p[k] == s.subrange(i, i + p.len())[k]);
                assert(s[i + k] == b[0]);
            }
        }
    }
}

/// The seam-free companion of `lemma_concat_avoids_pattern_by_first`: here no
/// character of the left part's last position occurs in the pattern before
/// its end.
pub proof fn lemma_concat_avoids_pattern_by_last(a: Seq<char>, b: Seq<char>, p: Seq<char>)
    requires
        p.len() > 0,
        !spec_contains(a, p),
        !spec_contains(b, p),
        forall|k: int| 0 <= k < p.len() - 1 ==> p[k] != a.last(),
    ensures
        !spec_contains(a + b, p),
{
    let s = a + b;
    assert forall|i: int| 0 <= i && i + p.len() <= s.len() implies #[trigger] s.subrange(
        i,
        i + p.len(),
    ) != p by {
        if s.subrange(i, i + p.len()) == p {
            if i + p.len() <= a.len() {
                assert(a.subrange(i, i + p.len()) =~= s.subrange(i, i + p.len()));
                assert(spec_contains(a, p));
            } else if i >= a.len() {
                assert(b.subrange(i - a.len(), i - a.len() + p.len()) =~= s.subrange(
                    i,
                    i + p.len(),
                ));
                assert(spec_contains(b, p));
            } else {
                let k = a.len() - i;
                assert(1 <= k < p.len());
                assert(p[k - 1] == s.subrange(i, i + p.len())[k - 1]);
                assert(s[i + k - 1] == a.last());
            }
        }
    }
}

} // verus!
