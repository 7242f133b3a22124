//! String operations used by the protocol and server modules, each stated over the string's
//! characters.

use vstd::prelude::*;

verus! {

/// The Unicode `White_Space` property.
pub open spec fn white_space(c: char) -> bool {
    ||| '\u{9}' <= c <= '\u{d}'
    ||| c == '\u{20}'
    ||| c == '\u{85}'
    ||| c == '\u{a0}'
    ||| c == '\u{1680}'
    ||| '\u{2000}' <= c <= '\u{200a}'
    ||| c == '\u{2028}'
    ||| c == '\u{2029}'
    ||| c == '\u{202f}'
    ||| c == '\u{205f}'
    ||| c == '\u{3000}'
}

/// Whether `c` has the Unicode `White_Space` property.
pub fn is_whitespace(c: char) -> (r: bool)
    ensures
        r == white_space(c),
{
    ('\u{9}' <= c && c <= '\u{d}') || c == '\u{20}' || c == '\u{85}' || c == '\u{a0}' || c
        == '\u{1680}' || ('\u{2000}' <= c && c <= '\u{200a}') || c == '\u{2028}' || c == '\u{2029}'
        || c == '\u{202f}' || c == '\u{205f}' || c == '\u{3000}'
}

/// `s` without its leading white space.
pub open spec fn trimmed_start(s: Seq<char>) -> Seq<char>
    decreases s.len(),
{
    if s.len() > 0 && white_space(s[0]) {
        trimmed_start(s.skip(1))
    } else {
        s
    }
}

/// `s` without its trailing white space.
pub open spec fn trimmed_end(s: Seq<char>) -> Seq<char>
    decreases s.len(),
{
    if s.len() > 0 && white_space(s.last()) {
        trimmed_end(s.drop_last())
    } else {
        s
    }
}

/// `s` without its leading and trailing white space.
pub open spec fn trimmed(s: Seq<char>) -> Seq<char> {
    trimmed_end(trimmed_start(s))
}

/// The index of the first `c` in `s`, or the length of `s` when it has none.
pub open spec fn first_index(s: Seq<char>, c: char) -> int
    decreases s.len(),
{
    if s.len() == 0 || s[0] == c {
        0
    } else {
        1 + first_index(s.skip(1), c)
    }
}

/// What stands before the first `c` of `s`: all of `s` when it has none.
pub open spec fn before(s: Seq<char>, c: char) -> Seq<char> {
    s.take(first_index(s, c))
}

/// What stands after the first `c` of `s`; nothing when it has none.
pub open spec fn after(s: Seq<char>, c: char) -> Option<Seq<char>> {
    if first_index(s, c) < s.len() {
        Some(s.skip(first_index(s, c) + 1))
    } else {
        None
    }
}

/// `needle` occurs in `s` at index `i`.
pub open spec fn occurs_at(s: Seq<char>, needle: Seq<char>, i: int) -> bool {
    &&& 0 <= i
    &&& i + needle.len() <= s.len()
    &&& s.subrange(i, i + needle.len()) == needle
}

/// `needle` occurs somewhere in `s`.
pub open spec fn occurs(s: Seq<char>, needle: Seq<char>) -> bool {
    exists|i: int| occurs_at(s, needle, i)
}

/// `s` without its longest trailing run of `c`.
pub open spec fn without_trailing(s: Seq<char>, c: char) -> Seq<char>
    decreases s.len(),
{
    if s.len() > 0 && s.last() == c {
        without_trailing(s.drop_last(), c)
    } else {
        s
    }
}

/// The first index of a character is in range, holds that character when it is not the length, and
/// no earlier index does.
pub proof fn lemma_first_index(s: Seq<char>, c: char)
    ensures
        0 <= first_index(s, c) <= s.len(),
        first_index(s, c) < s.len() ==> s[first_index(s, c)] == c,
        forall|i: int| 0 <= i < first_index(s, c) ==> s[i] != c,
    decreases s.len(),
{
    if s.len() > 0 && s[0] != c {
        let rest = s.skip(1);
        lemma_first_index(rest, c);
        assert forall|i: int| 0 <= i < first_index(s, c) implies s[i] != c by {
            if i > 0 {
                assert(s[i] == rest[i - 1]);
            }
        }
    }
}

/// The index at which a scan first meets `c` is its first index.
pub proof fn lemma_first_index_is(s: Seq<char>, c: char, i: int)
    requires
        0 <= i <= s.len(),
        i < s.len() ==> s[i] == c,
        forall|j: int| 0 <= j < i ==> s[j] != c,
    ensures
        first_index(s, c) == i,
{
    lemma_first_index(s, c);
    if first_index(s, c) < i {
        assert(s[first_index(s, c)] != c);
    }
}

/// Two strings with the same UTF-8 bytes have the same characters.
pub proof fn lemma_same_bytes(a: Seq<char>, b: Seq<char>)
    ensures
        (vstd::utf8::encode_utf8(a) == vstd::utf8::encode_utf8(b)) == (a == b),
{
    vstd::utf8::encode_utf8_decode_utf8(a);
    vstd::utf8::encode_utf8_decode_utf8(b);
}

/// The characters of a string.
pub fn chars_of(s: &str) -> (v: Vec<char>)
    ensures
        v@ == s@,
{
    let mut v: Vec<char> = Vec::new();
    for c in it: s.chars()
        invariant
            v@ == it.seq().take(it.index()),
            it.seq() == s@,
    {
        v.push(c);
    }
    v
}

/// Whether two strings hold the same characters.
pub fn str_eq(a: &str, b: &str) -> (r: bool)
    ensures
        r == (a@ == b@),
{
    let (x, y) = (a.as_bytes(), b.as_bytes());
    proof {
        lemma_same_bytes(a@, b@);
    }
    if x.len() != y.len() {
        return false;
    }
    let mut i: usize = 0;
    while i < x.len()
        invariant
            i <= x@.len(),
            x@.len() == y@.len(),
            forall|j: int| 0 <= j < i ==> x@[j] == y@[j],
            (x@ == y@) == (a@ == b@),
        decreases x@.len() - i,
    {
        if x[i] != y[i] {
            return false;
        }
        i += 1;
    }
    assert(x@ =~= y@);
    true
}

/// `s` without its leading and trailing white space.
pub fn trim(s: &str) -> (r: &str)
    ensures
        r@ == trimmed(s@),
{
    let v: Vec<char> = chars_of(s);
    let mut i: usize = 0;
    assert(v@.skip(0) =~= v@);
    while i < v.len() && is_whitespace(v[i])
        invariant
            i <= v@.len(),
            trimmed_start(v@) == trimmed_start(v@.skip(i as int)),
        decreases v@.len() - i,
    {
        assert(v@.skip(i as int).skip(1) =~= v@.skip(i + 1));
        i += 1;
    }
    let ghost kept = v@.skip(i as int);
    assert(trimmed_start(v@) == kept);
    let mut j: usize = v.len();
    assert(v@.subrange(i as int, j as int) =~= kept);
    while i < j && is_whitespace(v[j - 1])
        invariant
            i <= j <= v@.len(),
            trimmed_end(kept) == trimmed_end(v@.subrange(i as int, j as int)),
        decreases j,
    {
        assert(v@.subrange(i as int, j as int).drop_last() =~= v@.subrange(i as int, j - 1));
        assert(v@.subrange(i as int, j as int).last() == v@[j - 1]);
        j -= 1;
    }
    assert(trimmed_end(v@.subrange(i as int, j as int)) == v@.subrange(i as int, j as int));
    s.substring_char(i, j)
}

/// The index of the first `c` in `s`, or the number of its characters when it has none.
pub fn find_char(s: &str, c: char) -> (r: usize)
    ensures
        r == first_index(s@, c),
        r <= s@.len(),
{
    let v: Vec<char> = chars_of(s);
    let mut i: usize = 0;
    while i < v.len() && v[i] != c
        invariant
            i <= v@.len(),
            forall|j: int| 0 <= j < i ==> v@[j] != c,
        decreases v@.len() - i,
    {
        i += 1;
    }
    proof {
        lemma_first_index_is(s@, c, i as int);
    }
    i
}

/// Splits `s` at its first `c`: what stands before it, and what stands after it if there is one.
pub fn split_first(s: &str, c: char) -> (r: (&str, Option<&str>))
    ensures
        r.0@ == before(s@, c),
        r.1 is Some == after(s@, c) is Some,
        r.1 matches Some(rest) ==> after(s@, c) == Some(rest@),
{
    let i: usize = find_char(s, c);
    let n: usize = s.unicode_len();
    let head = s.substring_char(0, i);
    assert(head@ =~= before(s@, c));
    if i < n {
        let rest = s.substring_char(i + 1, n);
        assert(rest@ =~= s@.skip(i + 1));
        (head, Some(rest))
    } else {
        (head, None)
    }
}

/// Whether `v` holds `needle` from index `at` on.
fn matches_at(v: &Vec<char>, needle: &Vec<char>, at: usize) -> (r: bool)
    requires
        at + needle@.len() <= v@.len(),
    ensures
        r == occurs_at(v@, needle@, at as int),
{
    let mut k: usize = 0;
    while k < needle.len()
        invariant
            k <= needle@.len(),
            at + needle.len() <= v.len(),
            forall|j: int| 0 <= j < k ==> v@[at + j] == needle@[j],
        decreases needle@.len() - k,
    {
        if v[at + k] != needle[k] {
            assert(v@.subrange(at as int, at + needle@.len())[k as int] != needle@[k as int]);
            return false;
        }
        k += 1;
    }
    assert(v@.subrange(at as int, at + needle@.len()) =~= needle@);
    true
}

/// What follows `prefix` in `s`, when `s` starts with it.
pub fn strip_prefix<'a>(s: &'a str, prefix: &str) -> (r: Option<&'a str>)
    ensures
        r is Some == occurs_at(s@, prefix@, 0),
        r matches Some(rest) ==> rest@ == s@.skip(prefix@.len() as int),
{
    let v: Vec<char> = chars_of(s);
    let p: Vec<char> = chars_of(prefix);
    if p.len() <= v.len() && matches_at(&v, &p, 0) {
        let rest = s.substring_char(p.len(), v.len());
        assert(rest@ =~= s@.skip(prefix@.len() as int));
        Some(rest)
    } else {
        None
    }
}

/// Whether `needle` occurs in `s`.
pub fn contains(s: &str, needle: &str) -> (r: bool)
    ensures
        r == occurs(s@, needle@),
{
    let v: Vec<char> = chars_of(s);
    let n: Vec<char> = chars_of(needle);
    if n.len() > v.len() {
        return false;
    }
    let last: usize = v.len() - n.len();
    let mut i: usize = 0;
    while i <= last
        invariant
            i <= last + 1,
            last == v@.len() - n@.len(),
            v@ == s@,
            n@ == needle@,
            forall|j: int| 0 <= j < i ==> !occurs_at(v@, n@, j),
        decreases last + 1 - i,
    {
        if matches_at(&v, &n, i) {
            return true;
        }
        if i == last {
            assert forall|j: int| !occurs_at(v@, n@, j) by {
            }
            return false;
        }
        i += 1;
    }
    false
}

/// `s` without its longest trailing run of `c`.
pub fn trim_end_char(s: &str, c: char) -> (r: &str)
    ensures
        r@ == without_trailing(s@, c),
{
    let v: Vec<char> = chars_of(s);
    let mut j: usize = v.len();
    assert(v@.take(j as int) =~= v@);
    while 0 < j && v[j - 1] == c
        invariant
            j <= v@.len(),
            without_trailing(v@, c) == without_trailing(v@.take(j as int), c),
        decreases j,
    {
        assert(v@.take(j as int).drop_last() =~= v@.take(j - 1));
        j -= 1;
    }
    let r = s.substring_char(0, j);
    assert(r@ =~= v@.take(j as int));
    r
}

/// `String::push` of std, which appends one character.
pub assume_specification[ String::push ](s: &mut String, ch: char)
    ensures
        final(s)@ == old(s)@.push(ch),
;

/// Two strings, one after the other.
pub fn joined(a: &str, b: &str) -> (r: String)
    ensures
        r@ == a@ + b@,
{
    a.to_string().concat(b)
}

/// Leading white space is all that is taken off the front.
proof fn lemma_trimmed_start(s: Seq<char>) -> (k: int)
    ensures
        0 <= k <= s.len(),
        trimmed_start(s) == s.skip(k),
        forall|i: int| 0 <= i < k ==> white_space(#[trigger] s[i]),
        k < s.len() ==> !white_space(s[k]),
    decreases s.len(),
{
    if s.len() > 0 && white_space(s[0]) {
        let rest = s.skip(1);
        let k = lemma_trimmed_start(rest);
        assert(rest.skip(k) =~= s.skip(k + 1));
        assert forall|i: int| 0 <= i < k + 1 implies white_space(#[trigger] s[i]) by {
            if i > 0 {
                assert(rest[i - 1] == s[i]);
            }
        }
        k + 1
    } else {
        assert(s.skip(0) =~= s);
        0
    }
}

/// Trailing white space is all that is taken off the end.
proof fn lemma_trimmed_end(s: Seq<char>) -> (k: int)
    ensures
        0 <= k <= s.len(),
        trimmed_end(s) == s.take(k),
        forall|i: int| k <= i < s.len() ==> white_space(#[trigger] s[i]),
        k > 0 ==> !white_space(s[k - 1]),
    decreases s.len(),
{
    if s.len() > 0 && white_space(s.last()) {
        let rest = s.drop_last();
        let k = lemma_trimmed_end(rest);
        assert(rest.take(k) =~= s.take(k));
        assert forall|i: int| k <= i < s.len() implies white_space(#[trigger] s[i]) by {
            if i < rest.len() {
                assert(rest[i] == s[i]);
            }
        }
        k
    } else {
        assert(s.take(s.len() as int) =~= s);
        s.len() as int
    }
}

/// Trimming takes white space off both ends and nothing else: what is left stands in the text as it
/// was, all around it is white space, and neither end of it is.
pub proof fn law_trim(s: Seq<char>)
    ensures
        exists|i: int, j: int|
            0 <= i <= j <= s.len() && trimmed(s) == #[trigger] s.subrange(i, j) && (forall|k: int|
                0 <= k < i || j <= k < s.len() ==> white_space(#[trigger] s[k])),
        trimmed(s).len() > 0 ==> !white_space(trimmed(s)[0]) && !white_space(trimmed(s).last()),
        s.len() > 0 && !white_space(s[0]) && !white_space(s.last()) ==> trimmed(s) == s,
{
    let i = lemma_trimmed_start(s);
    let rest = s.skip(i);
    let k = lemma_trimmed_end(rest);
    let j = i + k;
    assert(rest.take(k) =~= s.subrange(i, j));
    assert forall|n: int| 0 <= n < i || j <= n < s.len() implies white_space(#[trigger] s[n]) by {
        if n >= j {
            assert(rest[n - i] == s[n]);
        }
    }
    if k > 0 {
        assert(trimmed(s)[0] == s[i]);
        assert(trimmed(s).last() == rest[k - 1]);
    }
    if s.len() > 0 && !white_space(s[0]) && !white_space(s.last()) {
        assert(i == 0);
        assert(rest =~= s);
        if k < s.len() {
            assert(white_space(rest[s.len() - 1]));
        }
        assert(trimmed(s) =~= s);
    }
}

/// Splitting at a character loses nothing else: the parts and the character between them are the
/// text, and the first part does not hold it. Without the character the first part is the text.
pub proof fn law_split(s: Seq<char>, c: char)
    ensures
        !before(s, c).contains(c),
        s.contains(c) == after(s, c) is Some,
        after(s, c) is None ==> before(s, c) == s,
        after(s, c) matches Some(rest) ==> s == before(s, c).push(c) + rest,
{
    lemma_first_index(s, c);
    let i = first_index(s, c);
    assert forall|k: int| 0 <= k < before(s, c).len() implies before(s, c)[k] != c by {
        assert(s[k] != c);
    }
    if i < s.len() {
        assert(s[i] == c);
        assert(s =~= before(s, c).push(c) + s.skip(i + 1));
    } else {
        assert(before(s, c) =~= s);
        assert forall|k: int| 0 <= k < s.len() implies s[k] != c by {}
    }
}

/// A trailing run of a character is taken off whole, and nothing else is.
pub proof fn law_trailing_run(s: Seq<char>, c: char)
    ensures
        without_trailing(s, c).is_prefix_of(s),
        without_trailing(s, c).len() > 0 ==> without_trailing(s, c).last() != c,
        forall|i: int| without_trailing(s, c).len() <= i < s.len() ==> #[trigger] s[i] == c,
    decreases s.len(),
{
    if s.len() > 0 && s.last() == c {
        let rest = s.drop_last();
        law_trailing_run(rest, c);
        let r = without_trailing(rest, c);
        assert(r =~= s.subrange(0, r.len() as int));
        assert forall|i: int| r.len() <= i < s.len() implies #[trigger] s[i] == c by {
            if i < rest.len() {
                assert(rest[i] == s[i]);
            }
        }
    } else {
        assert(s =~= s.subrange(0, s.len() as int));
    }
}

/// A text holds another exactly where it can be cut into what comes before, that other, and what
/// comes after.
pub proof fn law_occurs(s: Seq<char>, needle: Seq<char>, a: Seq<char>, b: Seq<char>)
    ensures
        occurs(a + needle + b, needle),
        occurs(s, needle) ==> exists|i: int|
            0 <= i <= s.len() - needle.len() && s == #[trigger] s.take(i) + needle + s.skip(
                i + needle.len(),
            ),
{
    let t = a + needle + b;
    let at = a.len() as int;
    assert(t.subrange(at, at + needle.len()) =~= needle);
    assert(occurs_at(t, needle, at));
    if occurs(s, needle) {
        let i = choose|i: int| occurs_at(s, needle, i);
        assert(s =~= s.take(i) + s.subrange(i, i + needle.len()) + s.skip(i + needle.len()));
    }
}

/// The white space of Unicode, by its code points.
pub proof fn law_white_space(c: char)
    ensures
        ({
            let n = c as int;
            white_space(c) <==> 9 <= n <= 13 || n == 32 || n == 133 || n == 160 || n == 5760 || 8192
                <= n <= 8202 || n == 8232 || n == 8233 || n == 8239 || n == 8287 || n == 12288
        }),
{
}

} // verus!
