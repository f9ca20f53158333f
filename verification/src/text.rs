//! Character-level text utilities shared by the parser, the markup stripper and
//! the message builders. Every string is modelled by its sequence of characters.

use vstd::prelude::*;
use vstd::string::StringExecFns;
use vstd::utf8::encode_utf8;

verus! {

/// Whether `c` has the Unicode `White_Space` property.
pub open spec fn is_whitespace(c: char) -> bool {
    let u = c as u32;
    ||| 0x09 <= u <= 0x0D
    ||| u == 0x20
    ||| u == 0x85
    ||| u == 0xA0
    ||| u == 0x1680
    ||| 0x2000 <= u <= 0x200A
    ||| u == 0x2028
    ||| u == 0x2029
    ||| u == 0x202F
    ||| u == 0x205F
    ||| u == 0x3000
}

/// Decides whether `c` is a whitespace character.
pub fn char_is_whitespace(c: char) -> (b: bool)
    ensures
        b == is_whitespace(c),
{
    let u: u32 = c as u32;
    (0x09 <= u && u <= 0x0D) || u == 0x20 || u == 0x85 || u == 0xA0 || u == 0x1680 || (0x2000 <= u
        && u <= 0x200A) || u == 0x2028 || u == 0x2029 || u == 0x202F || u == 0x205F || u == 0x3000
}

/// Collects the characters of `s` into a vector.
pub fn chars_of(s: &str) -> (v: Vec<char>)
    ensures
        v@ == s@,
{
    let mut v: Vec<char> = Vec::new();
    for c in it: s.chars()
        invariant
            it.seq() == s@,
            v@ == s@.take(it.index()),
    {
        v.push(c);
    }
    v
}

/// `String::push` appends one character.
pub assume_specification[ String::push ](s: &mut String, c: char)
    ensures
        final(s)@ == old(s)@.push(c),
;

/// Builds the string whose characters are `v[from..to]`.
pub fn string_of_range(v: &Vec<char>, from: usize, to: usize) -> (s: String)
    requires
        from <= to <= v.len(),
    ensures
        s@ == v@.subrange(from as int, to as int),
{
    let mut s = String::new();
    let mut i: usize = from;
    while i < to
        invariant
            from <= i <= to <= v.len(),
            s@ == v@.subrange(from as int, i as int),
        decreases to - i,
    {
        s.push(v[i]);
        i += 1;
    }
    s
}

/// Builds the string whose characters are those of `v`.
pub fn string_of(v: &Vec<char>) -> (s: String)
    ensures
        s@ == v@,
{
    string_of_range(v, 0, v.len())
}

/// Whether `needle` stands in `hay` at position `i`.
pub open spec fn occurs_at(hay: Seq<char>, needle: Seq<char>, i: int) -> bool {
    &&& 0 <= i
    &&& i + needle.len() <= hay.len()
    &&& hay.subrange(i, i + needle.len()) == needle
}

/// Whether `needle` stands somewhere in `hay`.
pub open spec fn contains_text(hay: Seq<char>, needle: Seq<char>) -> bool {
    exists|i: int| occurs_at(hay, needle, i)
}

/// The least position at or after `from` where `needle` stands in `hay`.
pub open spec fn first_occurrence(hay: Seq<char>, needle: Seq<char>, from: int) -> Option<int>
    decreases hay.len() + 1 - from,
{
    if from < 0 || from + needle.len() > hay.len() {
        None
    } else if occurs_at(hay, needle, from) {
        Some(from)
    } else {
        first_occurrence(hay, needle, from + 1)
    }
}

/// `first_occurrence` returns a match before which, from `from` on, there is
/// none; it returns `None` exactly when there is no match from `from` on.
pub proof fn lemma_first_occurrence(hay: Seq<char>, needle: Seq<char>, from: int)
    requires
        0 <= from,
    ensures
        match first_occurrence(hay, needle, from) {
            Some(i) => {
                &&& from <= i
                &&& occurs_at(hay, needle, i)
                &&& forall|j: int| from <= j < i ==> !occurs_at(hay, needle, j)
            },
            None => forall|j: int| from <= j ==> !occurs_at(hay, needle, j),
        },
    decreases hay.len() + 1 - from,
{
    if from + needle.len() > hay.len() {
    } else if occurs_at(hay, needle, from) {
    } else {
        lemma_first_occurrence(hay, needle, from + 1);
    }
}

/// A search from the start fails exactly when the needle stands nowhere.
pub proof fn lemma_first_occurrence_none(hay: Seq<char>, needle: Seq<char>)
    ensures
        first_occurrence(hay, needle, 0) is None <==> !contains_text(hay, needle),
{
    lemma_first_occurrence(hay, needle, 0);
    if first_occurrence(hay, needle, 0) is Some {
        assert(occurs_at(hay, needle, first_occurrence(hay, needle, 0)->0));
    }
}

/// Whether `needle` stands in `hay` at position `at`.
pub fn matches_at(hay: &Vec<char>, needle: &Vec<char>, at: usize) -> (b: bool)
    ensures
        b == occurs_at(hay@, needle@, at as int),
{
    if needle.len() > hay.len() || at > hay.len() - needle.len() {
        return false;
    }
    let mut k: usize = 0;
    while k < needle.len()
        invariant
            k <= needle.len(),
            at + needle.len() <= hay.len(),
            forall|j: int| 0 <= j < k ==> hay@[at + j] == needle@[j],
        decreases needle.len() - k,
    {
        if hay[at + k] != needle[k] {
            assert(hay@.subrange(at as int, at + needle.len())[k as int] != needle@[k as int]);
            return false;
        }
        k += 1;
    }
    assert(hay@.subrange(at as int, at + needle.len()) =~= needle@);
    true
}

/// Finds the first position at or after `from` where `needle` stands in `hay`.
pub fn find_text(hay: &Vec<char>, needle: &Vec<char>, from: usize) -> (r: Option<usize>)
    ensures
        match r {
            Some(i) => first_occurrence(hay@, needle@, from as int) == Some(i as int),
            None => first_occurrence(hay@, needle@, from as int) is None,
        },
{
    if needle.len() > hay.len() {
        return None;
    }
    let last: usize = hay.len() - needle.len();
    let mut i: usize = from;
    while i <= last
        invariant
            from <= i,
            last + needle.len() == hay.len(),
            first_occurrence(hay@, needle@, from as int) == first_occurrence(
                hay@,
                needle@,
                i as int,
            ),
        decreases last + 1 - i,
    {
        if matches_at(hay, needle, i) {
            return Some(i);
        }
        if i == last {
            assert(first_occurrence(hay@, needle@, i + 1) is None);
            return None;
        }
        i += 1;
    }
    None
}

/// Whether `needle` stands somewhere in `hay`.
pub fn has_text(hay: &Vec<char>, needle: &Vec<char>) -> (b: bool)
    ensures
        b == contains_text(hay@, needle@),
{
    proof {
        lemma_first_occurrence_none(hay@, needle@);
    }
    find_text(hay, needle, 0).is_some()
}

/// The least position at or after `from` that holds `c`.
pub open spec fn first_index(s: Seq<char>, c: char, from: int) -> Option<int>
    decreases s.len() - from,
{
    if from < 0 || from >= s.len() {
        None
    } else if s[from] == c {
        Some(from)
    } else {
        first_index(s, c, from + 1)
    }
}

/// The greatest position that holds `c`.
pub open spec fn last_index(s: Seq<char>, c: char) -> Option<int>
    decreases s.len(),
{
    if s.len() == 0 {
        None
    } else if s.last() == c {
        Some(s.len() - 1)
    } else {
        last_index(s.drop_last(), c)
    }
}

/// `first_index` returns the least position from `from` on that holds `c`.
pub proof fn lemma_first_index(s: Seq<char>, c: char, from: int)
    requires
        0 <= from,
    ensures
        match first_index(s, c, from) {
            Some(i) => {
                &&& from <= i < s.len()
                &&& s[i] == c
                &&& forall|j: int| from <= j < i ==> s[j] != c
            },
            None => forall|j: int| from <= j < s.len() ==> s[j] != c,
        },
    decreases s.len() - from,
{
    if from < s.len() && s[from] != c {
        lemma_first_index(s, c, from + 1);
    }
}

/// `last_index` returns the greatest position that holds `c`.
pub proof fn lemma_last_index(s: Seq<char>, c: char)
    ensures
        match last_index(s, c) {
            Some(i) => {
                &&& 0 <= i < s.len()
                &&& s[i] == c
                &&& forall|j: int| i < j < s.len() ==> s[j] != c
            },
            None => forall|j: int| 0 <= j < s.len() ==> s[j] != c,
        },
    decreases s.len(),
{
    if s.len() > 0 && s.last() != c {
        let t = s.drop_last();
        lemma_last_index(t, c);
        assert forall|j: int| 0 <= j < t.len() implies s[j] == t[j] by {}
    }
}

/// Finds the first position at or after `from` that holds `c`.
pub fn find_char(s: &Vec<char>, c: char, from: usize) -> (r: Option<usize>)
    ensures
        match r {
            Some(i) => first_index(s@, c, from as int) == Some(i as int),
            None => first_index(s@, c, from as int) is None,
        },
{
    let mut i: usize = from;
    while i < s.len()
        invariant
            from <= i,
            first_index(s@, c, from as int) == first_index(s@, c, i as int),
        decreases s.len() - i,
    {
        if s[i] == c {
            return Some(i);
        }
        i += 1;
    }
    None
}

/// Finds the last position that holds `c`.
pub fn rfind_char(s: &Vec<char>, c: char) -> (r: Option<usize>)
    ensures
        match r {
            Some(i) => last_index(s@, c) == Some(i as int),
            None => last_index(s@, c) is None,
        },
{
    let mut i: usize = s.len();
    assert(s@.take(i as int) =~= s@);
    while i > 0
        invariant
            i <= s.len(),
            last_index(s@, c) == last_index(s@.take(i as int), c),
        decreases i,
    {
        if s[i - 1] == c {
            return Some(i - 1);
        }
        assert(s@.take(i as int).drop_last() =~= s@.take(i - 1));
        i -= 1;
    }
    None
}

/// `s` without its leading whitespace.
pub open spec fn trim_start(s: Seq<char>) -> Seq<char>
    decreases s.len(),
{
    if s.len() > 0 && is_whitespace(s.first()) {
        trim_start(s.drop_first())
    } else {
        s
    }
}

/// `s` without its trailing whitespace.
pub open spec fn trim_end(s: Seq<char>) -> Seq<char>
    decreases s.len(),
{
    if s.len() > 0 && is_whitespace(s.last()) {
        trim_end(s.drop_last())
    } else {
        s
    }
}

/// `s` without its leading and trailing whitespace.
pub open spec fn trimmed(s: Seq<char>) -> Seq<char> {
    trim_end(trim_start(s))
}

/// `trim_start` drops the longest prefix made of whitespace: the returned `k`
/// is its length.
pub proof fn lemma_trim_start(s: Seq<char>) -> (k: int)
    ensures
        0 <= k <= s.len(),
        trim_start(s) == s.skip(k),
        forall|j: int| 0 <= j < k ==> is_whitespace(s[j]),
        k < s.len() ==> !is_whitespace(s[k]),
    decreases s.len(),
{
    if s.len() > 0 && is_whitespace(s.first()) {
        let t = s.drop_first();
        let k = lemma_trim_start(t);
        assert(t.skip(k) =~= s.skip(k + 1));
        assert forall|j: int| 0 <= j < k + 1 implies is_whitespace(s[j]) by {
            if j > 0 {
                assert(s[j] == t[j - 1]);
            }
        }
        if k + 1 < s.len() {
            assert(s[k + 1] == t[k]);
        }
        k + 1
    } else {
        assert(s.skip(0) =~= s);
        0
    }
}

/// `trim_end` drops the longest suffix made of whitespace: the returned `k` is
/// the length of what stays.
pub proof fn lemma_trim_end(s: Seq<char>) -> (k: int)
    ensures
        0 <= k <= s.len(),
        trim_end(s) == s.take(k),
        forall|j: int| k <= j < s.len() ==> is_whitespace(s[j]),
        k > 0 ==> !is_whitespace(s[k - 1]),
    decreases s.len(),
{
    if s.len() > 0 && is_whitespace(s.last()) {
        let t = s.drop_last();
        let k = lemma_trim_end(t);
        assert(t.take(k) =~= s.take(k));
        assert forall|j: int| k <= j < s.len() implies is_whitespace(s[j]) by {
            if j < t.len() {
                assert(s[j] == t[j]);
            }
        }
        if k > 0 {
            assert(s[k - 1] == t[k - 1]);
        }
        k
    } else {
        assert(s.take(s.len() as int) =~= s);
        s.len() as int
    }
}

/// A text that neither begins nor ends with whitespace is its own trimmed form.
pub proof fn lemma_trimmed_fixed(s: Seq<char>)
    requires
        s.len() > 0 ==> !is_whitespace(s.first()) && !is_whitespace(s.last()),
    ensures
        trimmed(s) == s,
{
}

/// A trimmed text is a part of the text: the returned bounds say which.
pub proof fn lemma_trimmed_is_part(s: Seq<char>) -> (r: (int, int))
    ensures
        0 <= r.0 <= r.1 <= s.len(),
        trimmed(s) == s.subrange(r.0, r.1),
        trimmed(s).len() > 0 ==> !is_whitespace(trimmed(s).first()) && !is_whitespace(
            trimmed(s).last(),
        ),
{
    let a = lemma_trim_start(s);
    let t = s.skip(a);
    let b = lemma_trim_end(t);
    assert(t.take(b) =~= s.subrange(a, a + b));
    if b > 0 {
        assert(t.take(b).last() == t[b - 1]);
        assert(t.take(b).first() == t[0]);
        assert(t[0] == s[a]);
    }
    (a, a + b)
}

/// Finds the trimmed form of `v[from..to]` as a range of `v`.
pub fn trim_range(v: &Vec<char>, from: usize, to: usize) -> (r: (usize, usize))
    requires
        from <= to <= v.len(),
    ensures
        from <= r.0 <= r.1 <= to,
        v@.subrange(r.0 as int, r.1 as int) == trimmed(v@.subrange(from as int, to as int)),
{
    let mut a: usize = from;
    while a < to && char_is_whitespace(v[a])
        invariant
            from <= a <= to <= v.len(),
            trim_start(v@.subrange(from as int, to as int)) == trim_start(
                v@.subrange(a as int, to as int),
            ),
        decreases to - a,
    {
        assert(v@.subrange(a as int, to as int).drop_first() =~= v@.subrange(a + 1, to as int));
        a += 1;
    }
    let mut b: usize = to;
    while b > a && char_is_whitespace(v[b - 1])
        invariant
            a <= b <= to <= v.len(),
            trim_end(v@.subrange(a as int, to as int)) == trim_end(
                v@.subrange(a as int, b as int),
            ),
        decreases b,
    {
        assert(v@.subrange(a as int, b as int).drop_last() =~= v@.subrange(a as int, b - 1));
        b -= 1;
    }
    (a, b)
}

/// Whether `c` is a single or a double quotation mark.
pub open spec fn is_quote(c: char) -> bool {
    c == '"' || c == '\''
}

/// Whether a pair of matching quotation marks encloses `s`.
pub open spec fn is_enclosed(s: Seq<char>) -> bool {
    s.len() >= 2 && is_quote(s.first()) && s.last() == s.first()
}

/// `s` without one layer of matching quotation marks around it, if it has one.
pub open spec fn unquoted(s: Seq<char>) -> Seq<char> {
    if is_enclosed(s) {
        s.subrange(1, s.len() - 1)
    } else {
        s
    }
}

/// The first `n` items of `s`, or all of `s` if it has fewer.
pub open spec fn prefix<T>(s: Seq<T>, n: nat) -> Seq<T> {
    if n < s.len() {
        s.take(n as int)
    } else {
        s
    }
}

/// Keeps the first `n` characters of `s`.
pub fn take_chars(s: &str, n: usize) -> (r: String)
    ensures
        r@ == prefix(s@, n as nat),
{
    let v = chars_of(s);
    if n < v.len() {
        string_of_range(&v, 0, n)
    } else {
        string_of(&v)
    }
}

/// The lower-case form of a text, as `str::to_lowercase` computes it from the
/// Unicode tables.
pub uninterp spec fn lowercase(s: Seq<char>) -> Seq<char>;

/// `str::to_lowercase`: the lower-case form of `s`. The contract names the
/// result and says nothing of what it holds; it claims only that the same
/// characters always give the same result.
#[verifier::external_body]
pub(crate) fn to_lowercase(s: &str) -> (r: String)
    ensures
        r@ == lowercase(s@),
{
    s.to_lowercase()
}

/// The words of `s`: its maximal runs of characters that are not whitespace,
/// in order.
pub open spec fn words(s: Seq<char>) -> Seq<Seq<char>>
    decreases s.len(),
{
    if s.len() == 0 {
        seq![]
    } else {
        let before = words(s.drop_last());
        let c = s.last();
        if is_whitespace(c) {
            before
        } else if s.len() >= 2 && !is_whitespace(s[s.len() - 2]) {
            before.drop_last().push(before.last().push(c))
        } else {
            before.push(seq![c])
        }
    }
}

/// The texts of `parts` in order, with `sep` between each two.
pub open spec fn joined(parts: Seq<Seq<char>>, sep: Seq<char>) -> Seq<char>
    decreases parts.len(),
{
    if parts.len() == 0 {
        seq![]
    } else if parts.len() == 1 {
        parts[0]
    } else {
        joined(parts.drop_last(), sep) + sep + parts.last()
    }
}

/// The words of `s` with a single space between each two.
pub open spec fn collapse_whitespace(s: Seq<char>) -> Seq<char> {
    joined(words(s), seq![' '])
}

/// Every word holds at least one character and no whitespace, and a text that
/// ends in a character that is no whitespace has at least one word.
pub proof fn lemma_words(s: Seq<char>)
    ensures
        forall|k: int| 0 <= k < words(s).len() ==> (#[trigger] words(s)[k]).len() > 0,
        forall|k: int, j: int|
            0 <= k < words(s).len() && 0 <= j < words(s)[k].len() ==> !is_whitespace(
                #[trigger] words(s)[k][j],
            ),
        s.len() > 0 && !is_whitespace(s.last()) ==> words(s).len() > 0,
    decreases s.len(),
{
    if s.len() > 0 {
        let t = s.drop_last();
        lemma_words(t);
        if !is_whitespace(s.last()) && s.len() >= 2 && !is_whitespace(s[s.len() - 2]) {
            assert(t.last() == s[s.len() - 2]);
        }
    }
}

/// What one more character does to the collapsed text: whitespace changes
/// nothing, a character that goes on a word joins it, and one that begins a
/// word joins after a space, unless it is the first.
pub proof fn lemma_collapse_push(s: Seq<char>, c: char)
    ensures
        collapse_whitespace(s.push(c)) == if is_whitespace(c) {
            collapse_whitespace(s)
        } else if s.len() > 0 && !is_whitespace(s.last()) {
            collapse_whitespace(s).push(c)
        } else if collapse_whitespace(s).len() == 0 {
            seq![c]
        } else {
            collapse_whitespace(s).push(' ').push(c)
        },
        (collapse_whitespace(s).len() == 0) == (words(s).len() == 0),
{
    let sep = seq![' '];
    let t = s.push(c);
    assert(t.drop_last() =~= s);
    lemma_words(s);
    let w = words(s);
    let w2 = words(t);
    if w.len() > 1 {
        assert(joined(w, sep).len() > 0);
    }
    if !is_whitespace(c) {
        if s.len() > 0 && !is_whitespace(s.last()) {
            assert(t[t.len() - 2] == s.last());
            assert(w2 == w.drop_last().push(w.last().push(c)));
            assert(w2.drop_last() =~= w.drop_last());
            if w.len() > 1 {
                assert(joined(w2, sep) =~= joined(w, sep).push(c));
            }
        } else {
            if s.len() > 0 {
                assert(t[t.len() - 2] == s.last());
            }
            assert(w2 == w.push(seq![c]));
            assert(w2.drop_last() =~= w);
            if w.len() > 0 {
                assert(joined(w2, sep) =~= joined(w, sep).push(' ').push(c));
            }
        }
    }
}

/// The test that a character is no whitespace.
pub open spec fn is_visible() -> spec_fn(char) -> bool {
    |c: char| !is_whitespace(c)
}

/// The shape of a collapsed text: it neither begins nor ends with whitespace;
/// its only whitespace is single spaces, each between two characters that are
/// none; and its other characters are those of the text, in their order.
pub proof fn lemma_collapse_shape(s: Seq<char>)
    ensures
        ({
            let r = collapse_whitespace(s);
            &&& r.len() > 0 ==> !is_whitespace(r.first()) && !is_whitespace(r.last())
            &&& forall|i: int|
                0 <= i < r.len() && is_whitespace(#[trigger] r[i]) ==> {
                    &&& r[i] == ' '
                    &&& 0 < i < r.len() - 1
                    &&& !is_whitespace(r[i - 1])
                    &&& !is_whitespace(r[i + 1])
                }
            &&& r.filter(is_visible()) == s.filter(is_visible())
            &&& s.len() > 0 && !is_whitespace(s.last()) ==> r.len() > 0 && r.last() == s.last()
        }),
    decreases s.len(),
{
    if s.len() > 0 {
        let t = s.drop_last();
        let c = s.last();
        assert(t.push(c) =~= s);
        lemma_collapse_shape(t);
        lemma_collapse_push(t, c);
        let p = collapse_whitespace(t);
        let r = collapse_whitespace(s);
        t.lemma_filter_push(c, is_visible());
        if !is_whitespace(c) {
            if t.len() > 0 && !is_whitespace(t.last()) {
                p.lemma_filter_push(c, is_visible());
            } else if p.len() == 0 {
                Seq::<char>::empty().lemma_filter_push(c, is_visible());
                assert(Seq::<char>::empty().push(c) =~= seq![c]);
                assert(p =~= Seq::<char>::empty());
            } else {
                p.lemma_filter_push(' ', is_visible());
                p.push(' ').lemma_filter_push(c, is_visible());
            }
        }
    }
}

/// Replaces every run of whitespace inside `v` by one space and drops the
/// whitespace at both ends.
pub fn collapse(v: &Vec<char>) -> (out: Vec<char>)
    ensures
        out@ == collapse_whitespace(v@),
{
    let mut out: Vec<char> = Vec::new();
    let mut in_word = false;
    let mut i: usize = 0;
    while i < v.len()
        invariant
            i <= v.len(),
            out@ == collapse_whitespace(v@.take(i as int)),
            in_word == (i > 0 && !is_whitespace(v@[i - 1])),
        decreases v.len() - i,
    {
        let c = v[i];
        proof {
            assert(v@.take(i + 1) =~= v@.take(i as int).push(c));
            lemma_collapse_push(v@.take(i as int), c);
        }
        if !char_is_whitespace(c) {
            if !in_word && out.len() > 0 {
                out.push(' ');
            }
            out.push(c);
            in_word = true;
        } else {
            in_word = false;
        }
        i += 1;
    }
    assert(v@.take(v.len() as int) =~= v@);
    out
}

/// The character that writes the digit `d`.
pub open spec fn digit_char(d: nat) -> char {
    (d + 48) as u8 as char
}

/// The decimal numeral of `n`, without leading zeros.
pub open spec fn decimal(n: nat) -> Seq<char>
    decreases n,
{
    if n < 10 {
        seq![digit_char(n)]
    } else {
        decimal(n / 10).push(digit_char(n % 10))
    }
}

/// Appends the decimal numeral of `n` to `out`.
fn push_decimal(out: &mut String, n: usize)
    ensures
        final(out)@ == old(out)@ + decimal(n as nat),
    decreases n,
{
    if n >= 10 {
        push_decimal(out, n / 10);
    }
    let d: u8 = (n % 10) as u8;
    out.push((d + 48) as char);
}

/// Writes `n` in decimal.
pub fn decimal_string(n: usize) -> (r: String)
    ensures
        r@ == decimal(n as nat),
{
    let mut r = String::new();
    push_decimal(&mut r, n);
    r
}

/// Appends `tail` to `head`.
pub fn concat(head: &str, tail: &str) -> (r: String)
    ensures
        r@ == head@ + tail@,
{
    let mut r = head.to_owned();
    r.append(tail);
    r
}

/// The number of bytes that `s` takes in UTF-8.
pub open spec fn utf8_len(s: Seq<char>) -> nat {
    encode_utf8(s).len()
}

/// A character takes at most four bytes.
pub proof fn lemma_utf8_len_bound(s: Seq<char>)
    ensures
        utf8_len(s) <= 4 * s.len(),
    decreases s.len(),
{
    if s.len() > 0 {
        lemma_utf8_len_bound(s.drop_first());
    }
}

/// Counts the bytes that `s` takes in UTF-8.
pub fn byte_len(s: &str) -> (n: usize)
    requires
        4 * s@.len() <= usize::MAX,
    ensures
        n == utf8_len(s@),
{
    proof {
        lemma_utf8_len_bound(s@);
    }
    s.len()
}

} // verus!
