//! Character-sequence model of the few `str` operations the checks rely on
//! (`lines`, `split`, `split_whitespace`, `trim`, `starts_with`, `contains`),
//! with executable counterparts proved against it.
use vstd::prelude::*;

verus! {

/// The characters that `char::is_whitespace` accepts (Unicode `White_Space`).
pub open spec fn is_ws(c: char) -> bool {
    ||| c == '\t' || c == '\n' || c == '\u{0B}' || c == '\u{0C}' || c == '\r' || c == ' '
    ||| c == '\u{85}' || c == '\u{A0}' || c == '\u{1680}'
    ||| ('\u{2000}' <= c && c <= '\u{200A}')
    ||| c == '\u{2028}' || c == '\u{2029}' || c == '\u{202F}' || c == '\u{205F}'
    ||| c == '\u{3000}'
}

/// `s.trim_start()`.
pub open spec fn trim_start(s: Seq<char>) -> Seq<char>
    decreases s.len(),
{
    if s.len() > 0 && is_ws(s[0]) {
        trim_start(s.drop_first())
    } else {
        s
    }
}

/// `s.trim_end()`.
pub open spec fn trim_end(s: Seq<char>) -> Seq<char>
    decreases s.len(),
{
    if s.len() > 0 && is_ws(s.last()) {
        trim_end(s.drop_last())
    } else {
        s
    }
}

/// `s.trim()`.
pub open spec fn trim(s: Seq<char>) -> Seq<char> {
    trim_end(trim_start(s))
}

/// `s.starts_with(p)`.
pub open spec fn starts_with(s: Seq<char>, p: Seq<char>) -> bool {
    p.len() <= s.len() && s.subrange(0, p.len() as int) == p
}

/// `s.strip_prefix(p)`.
pub open spec fn strip_prefix(s: Seq<char>, p: Seq<char>) -> Option<Seq<char>> {
    if starts_with(s, p) {
        Some(s.skip(p.len() as int))
    } else {
        None
    }
}

/// `s.contains(p)` for a string pattern `p`.
pub open spec fn contains_sub(s: Seq<char>, p: Seq<char>) -> bool {
    exists|i: int| 0 <= i && i + p.len() <= s.len() && #[trigger] s.subrange(i, i + p.len()) == p
}

/// The pieces of `rest` split at `sep`, the first piece continuing `cur`.
pub open spec fn split_from(cur: Seq<char>, rest: Seq<char>, sep: char) -> Seq<Seq<char>>
    decreases rest.len(),
{
    if rest.len() == 0 {
        seq![cur]
    } else if rest[0] == sep {
        seq![cur] + split_from(Seq::empty(), rest.drop_first(), sep)
    } else {
        split_from(cur.push(rest[0]), rest.drop_first(), sep)
    }
}

/// `s.split(sep)` for a single character separator.
pub open spec fn split(s: Seq<char>, sep: char) -> Seq<Seq<char>> {
    split_from(Seq::empty(), s, sep)
}

/// A line without the `'\r'` of a `"\r\n"` ending.
pub open spec fn strip_cr(l: Seq<char>) -> Seq<char> {
    if l.len() > 0 && l.last() == '\r' {
        l.drop_last()
    } else {
        l
    }
}

/// The lines of `rest`, the first one continuing `cur`.
pub open spec fn lines_from(cur: Seq<char>, rest: Seq<char>) -> Seq<Seq<char>>
    decreases rest.len(),
{
    if rest.len() == 0 {
        if cur.len() == 0 {
            Seq::empty()
        } else {
            seq![cur]
        }
    } else if rest[0] == '\n' {
        seq![strip_cr(cur)] + lines_from(Seq::empty(), rest.drop_first())
    } else {
        lines_from(cur.push(rest[0]), rest.drop_first())
    }
}

/// `s.lines()`: lines end at `"\n"` or `"\r\n"`; the last line ending is optional.
pub open spec fn lines(s: Seq<char>) -> Seq<Seq<char>> {
    lines_from(Seq::empty(), s)
}

/// The whitespace-separated words of `rest`, the first one continuing `cur`.
pub open spec fn words_from(cur: Seq<char>, rest: Seq<char>) -> Seq<Seq<char>>
    decreases rest.len(),
{
    if rest.len() == 0 {
        if cur.len() == 0 {
            Seq::empty()
        } else {
            seq![cur]
        }
    } else if is_ws(rest[0]) {
        (if cur.len() == 0 {
            Seq::empty()
        } else {
            seq![cur]
        }) + words_from(Seq::empty(), rest.drop_first())
    } else {
        words_from(cur.push(rest[0]), rest.drop_first())
    }
}

/// `s.split_whitespace()`.
pub open spec fn words(s: Seq<char>) -> Seq<Seq<char>> {
    words_from(Seq::empty(), s)
}

/// The views of a vector of character vectors.
pub open spec fn char_views(v: Seq<Vec<char>>) -> Seq<Seq<char>> {
    v.map_values(|x: Vec<char>| x@)
}

/// The views of a vector of strings.
pub open spec fn string_views(v: Seq<String>) -> Seq<Seq<char>> {
    v.map_values(|x: String| x@)
}

/// Appends one character to a string (`String::push`).
#[verifier::external_body]
pub fn push_char(s: &mut String, c: char)
    ensures
        final(s)@ == old(s)@.push(c),
{
    s.push(c);
}

/// The characters of `s`, in order.
pub fn chars_of(s: &str) -> (r: Vec<char>)
    ensures
        r@ == s@,
{
    let mut r: Vec<char> = Vec::new();
    for c in it: s.chars()
        invariant
            r@ == it.seq().take(it.index() as int),
            it.seq() == s@,
    {
        r.push(c);
    }
    r
}

/// A string holding the characters of `v`.
pub fn string_of(v: &Vec<char>) -> (r: String)
    ensures
        r@ == v@,
{
    let mut r = String::new();
    let mut i: usize = 0;
    while i < v.len()
        invariant
            i <= v.len(),
            r@ == v@.take(i as int),
        decreases v.len() - i,
    {
        push_char(&mut r, v[i]);
        assert(v@.take(i + 1) == v@.take(i as int).push(v@[i as int]));
        i = i + 1;
    }
    assert(v@.take(v.len() as int) == v@);
    r
}

/// A string holding `a` followed by `b`.
pub fn concat_strs(a: &str, b: &str) -> (r: String)
    ensures
        r@ == a@ + b@,
{
    let mut r = String::from_str(a);
    r.append(b);
    r
}

/// Whether `c` is whitespace in the sense of `char::is_whitespace`.
pub fn is_ws_exec(c: char) -> (r: bool)
    ensures
        r == is_ws(c),
{
    c == '\t' || c == '\n' || c == '\u{0B}' || c == '\u{0C}' || c == '\r' || c == ' ' || c
        == '\u{85}' || c == '\u{A0}' || c == '\u{1680}' || ('\u{2000}' <= c && c <= '\u{200A}')
        || c == '\u{2028}' || c == '\u{2029}' || c == '\u{202F}' || c == '\u{205F}' || c
        == '\u{3000}'
}

/// Whether two character sequences are equal.
pub fn chars_eq(a: &Vec<char>, b: &Vec<char>) -> (r: bool)
    ensures
        r == (a@ == b@),
{
    if a.len() != b.len() {
        return false;
    }
    let mut i: usize = 0;
    while i < a.len()
        invariant
            i <= a.len(),
            a.len() == b.len(),
            forall|j: int| 0 <= j < i ==> a@[j] == b@[j],
        decreases a.len() - i,
    {
        if a[i] != b[i] {
            return false;
        }
        i = i + 1;
    }
    assert(a@ =~= b@);
    true
}

/// Whether `s` starts with `p`.
pub fn starts_with_exec(s: &Vec<char>, p: &Vec<char>) -> (r: bool)
    ensures
        r == starts_with(s@, p@),
{
    if p.len() > s.len() {
        return false;
    }
    let mut i: usize = 0;
    while i < p.len()
        invariant
            i <= p.len(),
            p.len() <= s.len(),
            forall|j: int| 0 <= j < i ==> s@[j] == p@[j],
        decreases p.len() - i,
    {
        if s[i] != p[i] {
            assert(s@.subrange(0, p.len() as int)[i as int] != p@[i as int]);
            return false;
        }
        i = i + 1;
    }
    assert(s@.subrange(0, p.len() as int) =~= p@);
    true
}

/// Whether `s` holds `p` at position `at`.
fn matches_at(s: &Vec<char>, p: &Vec<char>, at: usize) -> (r: bool)
    requires
        at + p.len() <= s.len(),
    ensures
        r == (s@.subrange(at as int, at + p.len()) == p@),
{
    let mut i: usize = 0;
    while i < p.len()
        invariant
            i <= p.len(),
            at + p.len() <= s.len(),
            forall|j: int| 0 <= j < i ==> s@[at + j] == p@[j],
        decreases p.len() - i,
    {
        if s[at + i] != p[i] {
            assert(s@.subrange(at as int, at + p.len())[i as int] != p@[i as int]);
            return false;
        }
        i = i + 1;
    }
    assert(s@.subrange(at as int, at + p.len()) =~= p@);
    true
}

/// Whether `p` occurs in `s`.
pub fn contains_exec(s: &Vec<char>, p: &Vec<char>) -> (r: bool)
    ensures
        r == contains_sub(s@, p@),
{
    if p.len() > s.len() {
        return false;
    }
    let mut at: usize = 0;
    let last: usize = s.len() - p.len();
    loop
        invariant
            p.len() <= s.len(),
            last == s.len() - p.len(),
            at <= last,
            forall|i: int|
                0 <= i < at ==> #[trigger] s@.subrange(i, i + p.len()) != p@,
        decreases last - at,
    {
        if matches_at(s, p, at) {
            return true;
        }
        if at == last {
            return false;
        }
        at = at + 1;
    }
}

/// `s.trim()` on a character vector.
pub fn trim_exec(s: &Vec<char>) -> (r: Vec<char>)
    ensures
        r@ == trim(s@),
{
    let mut start: usize = 0;
    assert(s@.skip(0) =~= s@);
    while start < s.len() && is_ws_exec(s[start])
        invariant
            start <= s.len(),
            trim_start(s@) == trim_start(s@.skip(start as int)),
        decreases s.len() - start,
    {
        assert(s@.skip(start as int).drop_first() =~= s@.skip(start + 1));
        start = start + 1;
    }
    assert(trim_start(s@) == s@.skip(start as int));
    let mut end: usize = s.len();
    while end > start && is_ws_exec(s[end - 1])
        invariant
            start <= end <= s.len(),
            trim_end(s@.skip(start as int)) == trim_end(s@.subrange(start as int, end as int)),
        decreases end,
    {
        assert(s@.subrange(start as int, end as int).drop_last() =~= s@.subrange(
            start as int,
            end - 1,
        ));
        end = end - 1;
    }
    assert(s@.skip(start as int) =~= s@.subrange(start as int, s.len() as int));
    let mut r: Vec<char> = Vec::new();
    let mut i: usize = start;
    while i < end
        invariant
            start <= i <= end <= s.len(),
            r@ == s@.subrange(start as int, i as int),
        decreases end - i,
    {
        r.push(s[i]);
        assert(s@.subrange(start as int, i + 1) =~= s@.subrange(start as int, i as int).push(
            s@[i as int],
        ));
        i = i + 1;
    }
    r
}

/// `s.split(sep)` on a character vector.
pub fn split_exec(s: &Vec<char>, sep: char) -> (r: Vec<Vec<char>>)
    ensures
        char_views(r@) == split(s@, sep),
{
    let mut out: Vec<Vec<char>> = Vec::new();
    let mut cur: Vec<char> = Vec::new();
    let mut i: usize = 0;
    assert(s@.skip(0) =~= s@);
    assert(char_views(out@) =~= Seq::<Seq<char>>::empty());
    while i < s.len()
        invariant
            i <= s.len(),
            split(s@, sep) == char_views(out@) + split_from(cur@, s@.skip(i as int), sep),
        decreases s.len() - i,
    {
        let ghost rest = s@.skip(i as int);
        assert(rest.drop_first() =~= s@.skip(i + 1));
        if s[i] == sep {
            let piece = cur;
            cur = Vec::new();
            proof {
                assert(char_views(out@.push(piece)) =~= char_views(out@) + seq![piece@]);
            }
            out.push(piece);
        } else {
            cur.push(s[i]);
        }
        i = i + 1;
    }
    proof {
        assert(char_views(out@.push(cur)) =~= char_views(out@) + seq![cur@]);
    }
    out.push(cur);
    out
}

/// `s.lines()` on a string.
pub fn lines_exec(text: &str) -> (r: Vec<Vec<char>>)
    ensures
        char_views(r@) == lines(text@),
{
    let s = chars_of(text);
    let mut out: Vec<Vec<char>> = Vec::new();
    let mut cur: Vec<char> = Vec::new();
    let mut i: usize = 0;
    assert(s@.skip(0) =~= s@);
    assert(char_views(out@) =~= Seq::<Seq<char>>::empty());
    while i < s.len()
        invariant
            i <= s.len(),
            s@ == text@,
            lines(s@) == char_views(out@) + lines_from(cur@, s@.skip(i as int)),
        decreases s.len() - i,
    {
        let ghost rest = s@.skip(i as int);
        assert(rest.drop_first() =~= s@.skip(i + 1));
        if s[i] == '\n' {
            let mut piece = cur;
            if piece.len() > 0 && piece[piece.len() - 1] == '\r' {
                piece.pop();
            }
            cur = Vec::new();
            proof {
                assert(char_views(out@.push(piece)) =~= char_views(out@) + seq![piece@]);
            }
            out.push(piece);
        } else {
            cur.push(s[i]);
        }
        i = i + 1;
    }
    if cur.len() > 0 {
        proof {
            assert(char_views(out@.push(cur)) =~= char_views(out@) + seq![cur@]);
        }
        out.push(cur);
    } else {
        assert(char_views(out@) + Seq::<Seq<char>>::empty() =~= char_views(out@));
    }
    out
}

/// `s.split_whitespace()` on a character vector.
pub fn words_exec(s: &Vec<char>) -> (r: Vec<Vec<char>>)
    ensures
        char_views(r@) == words(s@),
{
    let mut out: Vec<Vec<char>> = Vec::new();
    let mut cur: Vec<char> = Vec::new();
    let mut i: usize = 0;
    assert(s@.skip(0) =~= s@);
    assert(char_views(out@) =~= Seq::<Seq<char>>::empty());
    while i < s.len()
        invariant
            i <= s.len(),
            words(s@) == char_views(out@) + words_from(cur@, s@.skip(i as int)),
        decreases s.len() - i,
    {
        let ghost rest = s@.skip(i as int);
        assert(rest.drop_first() =~= s@.skip(i + 1));
        if is_ws_exec(s[i]) {
            if cur.len() > 0 {
                assert(words_from(cur@, rest) == seq![cur@] + words_from(Seq::empty(), s@.skip(i + 1)));
                let piece = cur;
                cur = Vec::new();
                proof {
                    assert(char_views(out@.push(piece)) =~= char_views(out@) + seq![piece@]);
                }
                out.push(piece);
            } else {
                assert(cur@ =~= Seq::<char>::empty());
                assert(Seq::<Seq<char>>::empty() + words_from(cur@, s@.skip(i + 1)) =~= words_from(
                    cur@,
                    s@.skip(i + 1),
                ));
            }
        } else {
            cur.push(s[i]);
        }
        i = i + 1;
    }
    if cur.len() > 0 {
        proof {
            assert(char_views(out@.push(cur)) =~= char_views(out@) + seq![cur@]);
        }
        out.push(cur);
    } else {
        assert(char_views(out@) + Seq::<Seq<char>>::empty() =~= char_views(out@));
    }
    out
}

} // verus!

verus! {

/// The decimal digit for `d` (`d < 10`).
pub open spec fn digit_char(d: nat) -> char {
    if d == 0 {
        '0'
    } else if d == 1 {
        '1'
    } else if d == 2 {
        '2'
    } else if d == 3 {
        '3'
    } else if d == 4 {
        '4'
    } else if d == 5 {
        '5'
    } else if d == 6 {
        '6'
    } else if d == 7 {
        '7'
    } else if d == 8 {
        '8'
    } else {
        '9'
    }
}

/// The decimal text of `n`, as `Display` writes an unsigned integer.
pub open spec fn decimal(n: nat) -> Seq<char>
    decreases n,
{
    if n < 10 {
        seq![digit_char(n)]
    } else {
        decimal(n / 10).push(digit_char(n % 10))
    }
}

/// The decimal text of `n`, as `Display` writes a signed integer.
pub open spec fn signed_decimal(n: int) -> Seq<char> {
    if n < 0 {
        seq!['-'] + decimal((-n) as nat)
    } else {
        decimal(n as nat)
    }
}

fn digit_exec(d: u64) -> (c: char)
    requires
        d < 10,
    ensures
        c == digit_char(d as nat),
{
    if d == 0 {
        '0'
    } else if d == 1 {
        '1'
    } else if d == 2 {
        '2'
    } else if d == 3 {
        '3'
    } else if d == 4 {
        '4'
    } else if d == 5 {
        '5'
    } else if d == 6 {
        '6'
    } else if d == 7 {
        '7'
    } else if d == 8 {
        '8'
    } else {
        '9'
    }
}

/// The decimal text of `n` (`n.to_string()`).
pub fn u64_to_decimal(n: u64) -> (r: String)
    ensures
        r@ == decimal(n as nat),
    decreases n,
{
    if n < 10 {
        let mut r = String::new();
        push_char(&mut r, digit_exec(n));
        assert(r@ =~= seq![digit_char(n as nat)]);
        r
    } else {
        let mut r = u64_to_decimal(n / 10);
        push_char(&mut r, digit_exec(n % 10));
        r
    }
}

/// The decimal text of `n` (`n.to_string()`).
pub fn i64_to_decimal(n: i64) -> (r: String)
    ensures
        r@ == signed_decimal(n as int),
{
    if n < 0 {
        let m: u64 = if n == i64::MIN {
            9223372036854775808u64
        } else {
            (-n) as u64
        };
        let digits = u64_to_decimal(m);
        let r = concat_strs("-", digits.as_str());
        proof {
            reveal_strlit("-");
        }
        assert(r@ =~= seq!['-'] + decimal((-n) as nat));
        r
    } else {
        u64_to_decimal(n as u64)
    }
}

/// The items of `items` joined with `sep` between them.
pub open spec fn join(items: Seq<Seq<char>>, sep: Seq<char>) -> Seq<char>
    decreases items.len(),
{
    if items.len() == 0 {
        Seq::empty()
    } else if items.len() == 1 {
        items[0]
    } else {
        join(items.drop_last(), sep) + sep + items.last()
    }
}

/// `items.join(sep)`.
pub fn join_exec(items: &Vec<String>, sep: &str) -> (r: String)
    ensures
        r@ == join(string_views(items@), sep@),
{
    let ghost v = string_views(items@);
    let mut r = String::new();
    let mut i: usize = 0;
    while i < items.len()
        invariant
            i <= items.len(),
            v == string_views(items@),
            r@ == join(v.take(i as int), sep@),
        decreases items.len() - i,
    {
        assert(v.take(i + 1).drop_last() =~= v.take(i as int));
        assert(v.take(i + 1).last() == items@[i as int]@);
        if i > 0 {
            r.append(sep);
        } else {
            assert(join(v.take(0), sep@) =~= Seq::<char>::empty());
            assert(r@ + items@[0]@ =~= items@[0]@);
        }
        r.append(items[i].as_str());
        i = i + 1;
    }
    assert(v.take(items.len() as int) =~= v);
    r
}

} // verus!

verus! {

/// Whether `s`, trimmed, equals `lit`.
pub fn trimmed_equals(s: &str, lit: &str) -> (r: bool)
    ensures
        r == (trim(s@) == lit@),
{
    let c = chars_of(s);
    let t = trim_exec(&c);
    let l = chars_of(lit);
    chars_eq(&t, &l)
}

/// Whether an optional text is present and, trimmed, equals `lit`.
pub open spec fn trimmed_is(o: Option<Seq<char>>, lit: Seq<char>) -> bool {
    o matches Some(s) && trim(s) == lit
}

/// The view of an optional string.
pub open spec fn opt_string_view(o: Option<String>) -> Option<Seq<char>> {
    match o {
        Some(s) => Some(s@),
        None => None,
    }
}

/// Whether the optional text `o` is present and, trimmed, equals `lit`.
pub fn trimmed_is_exec(o: &Option<String>, lit: &str) -> (r: bool)
    ensures
        r == trimmed_is(opt_string_view(*o), lit@),
{
    match o {
        Some(s) => trimmed_equals(s.as_str(), lit),
        None => false,
    }
}

} // verus!
