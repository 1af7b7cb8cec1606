//! Character-level text model: whitespace, trimming, word splitting,
//! ASCII case folding, and the few `std` string primitives the library
//! relies on, each with a specification over `Seq<char>`.
use vstd::prelude::*;
use vstd::string::StrSliceExecFns;

verus! {

/// The Unicode `White_Space` property, which `char::is_whitespace` implements.
pub open spec fn is_ws(c: char) -> bool {
    ||| ('\u{9}' <= c && c <= '\u{d}')
    ||| c == ' '
    ||| c == '\u{85}'
    ||| c == '\u{a0}'
    ||| c == '\u{1680}'
    ||| ('\u{2000}' <= c && c <= '\u{200a}')
    ||| c == '\u{2028}'
    ||| c == '\u{2029}'
    ||| c == '\u{202f}'
    ||| c == '\u{205f}'
    ||| c == '\u{3000}'
}

/// Drops leading whitespace.
pub open spec fn trim_start(s: Seq<char>) -> Seq<char>
    decreases s.len(),
{
    if s.len() > 0 && is_ws(s[0]) {
        trim_start(s.drop_first())
    } else {
        s
    }
}

/// Drops trailing whitespace.
pub open spec fn trim_end(s: Seq<char>) -> Seq<char>
    decreases s.len(),
{
    if s.len() > 0 && is_ws(s.last()) {
        trim_end(s.drop_last())
    } else {
        s
    }
}

/// Drops leading and trailing whitespace.
pub open spec fn trim(s: Seq<char>) -> Seq<char> {
    trim_end(trim_start(s))
}

/// Whether the text is empty or whitespace only.
pub open spec fn is_blank(s: Seq<char>) -> bool {
    trim(s).len() == 0
}

/// Length of the maximal run of non-whitespace characters at the front.
pub open spec fn word_len(s: Seq<char>) -> nat
    decreases s.len(),
{
    if s.len() == 0 || is_ws(s[0]) {
        0
    } else {
        1 + word_len(s.drop_first())
    }
}

/// The whitespace-separated words of a text, in order (`split_whitespace`).
pub open spec fn words(s: Seq<char>) -> Seq<Seq<char>>
    decreases s.len(),
{
    if s.len() == 0 {
        seq![]
    } else if is_ws(s[0]) {
        words(s.drop_first())
    } else {
        proof {
            lemma_word_len_bounds(s);
        }
        seq![s.take(word_len(s) as int)] + words(s.skip(word_len(s) as int))
    }
}

/// Joins parts with a separator between consecutive parts.
pub open spec fn join(parts: Seq<Seq<char>>, sep: Seq<char>) -> Seq<char>
    decreases parts.len(),
{
    if parts.len() == 0 {
        seq![]
    } else if parts.len() == 1 {
        parts[0]
    } else {
        join(parts.drop_last(), sep) + sep + parts.last()
    }
}

/// ASCII lower-casing of a single character.
pub open spec fn lower_char(c: char) -> char {
    if 'A' <= c && c <= 'Z' {
        ((c as u32) + 32) as char
    } else {
        c
    }
}

/// ASCII lower-casing of a text; other characters are kept.
pub open spec fn ascii_lower(s: Seq<char>) -> Seq<char> {
    s.map_values(|c: char| lower_char(c))
}

/// The views of a list of strings.
pub open spec fn strs(v: Seq<String>) -> Seq<Seq<char>> {
    v.map_values(|s: String| s@)
}

/// Whether `value` is one of the texts in `list`.
pub open spec fn has_text(list: Seq<String>, value: Seq<char>) -> bool {
    exists|i: int| 0 <= i < list.len() && #[trigger] list[i]@ == value
}

/// Whether `value` starts with one of the texts in `list`.
pub open spec fn has_prefix_in(list: Seq<String>, value: Seq<char>) -> bool {
    exists|i: int| 0 <= i < list.len() && (#[trigger] list[i]@).is_prefix_of(value)
}

pub proof fn lemma_word_len_bounds(s: Seq<char>)
    ensures
        word_len(s) <= s.len(),
        s.len() > 0 && !is_ws(s[0]) ==> word_len(s) >= 1,
        forall|k: int| 0 <= k < word_len(s) ==> !is_ws(#[trigger] s[k]),
        word_len(s) < s.len() ==> is_ws(s[word_len(s) as int]),
    decreases s.len(),
{
    if s.len() > 0 && !is_ws(s[0]) {
        lemma_word_len_bounds(s.drop_first());
        assert forall|k: int| 0 <= k < word_len(s) implies !is_ws(#[trigger] s[k]) by {
            if k > 0 {
                assert(s[k] == s.drop_first()[k - 1]);
            }
        }
        if word_len(s) < s.len() {
            assert(s[word_len(s) as int] == s.drop_first()[word_len(s) - 1]);
        }
    }
}

pub proof fn lemma_trim_start_len(s: Seq<char>)
    ensures
        trim_start(s).len() <= s.len(),
    decreases s.len(),
{
    if s.len() > 0 && is_ws(s[0]) {
        lemma_trim_start_len(s.drop_first());
    }
}

proof fn lemma_trim_start_skip(s: Seq<char>, a: int)
    requires
        0 <= a <= s.len(),
        forall|k: int| 0 <= k < a ==> is_ws(#[trigger] s[k]),
        a == s.len() || !is_ws(s[a]),
    ensures
        trim_start(s) == s.skip(a),
    decreases a,
{
    if a > 0 {
        assert forall|k: int| 0 <= k < a - 1 implies is_ws(#[trigger] s.drop_first()[k]) by {
            assert(s.drop_first()[k] == s[k + 1]);
        }
        if a < s.len() {
            assert(s.drop_first()[a - 1] == s[a]);
        }
        lemma_trim_start_skip(s.drop_first(), a - 1);
        assert(s.drop_first().skip(a - 1) =~= s.skip(a));
    } else {
        assert(s.skip(0) =~= s);
    }
}

proof fn lemma_trim_end_take(t: Seq<char>, b: int)
    requires
        0 <= b <= t.len(),
        forall|k: int| b <= k < t.len() ==> is_ws(#[trigger] t[k]),
        b == 0 || !is_ws(t[b - 1]),
    ensures
        trim_end(t) == t.take(b),
    decreases t.len() - b,
{
    if b < t.len() {
        assert forall|k: int| b <= k < t.drop_last().len() implies is_ws(#[trigger] t.drop_last()[k]) by {
            assert(t.drop_last()[k] == t[k]);
        }
        if b > 0 {
            assert(t.drop_last()[b - 1] == t[b - 1]);
        }
        lemma_trim_end_take(t.drop_last(), b);
        assert(t.drop_last().take(b) =~= t.take(b));
    } else {
        assert(t.take(b) =~= t);
    }
}

/// The index of the first character of `cs` that is not whitespace, or
/// its length.
fn leading_ws(cs: &Vec<char>) -> (a: usize)
    ensures
        a <= cs.len(),
        forall|k: int| 0 <= k < a ==> is_ws(#[trigger] cs@[k]),
        a == cs.len() || !is_ws(cs@[a as int]),
{
    let mut a: usize = 0;
    while a < cs.len() && char_is_ws(cs[a])
        invariant
            a <= cs.len(),
            forall|k: int| 0 <= k < a ==> is_ws(#[trigger] cs@[k]),
        decreases cs.len() - a,
    {
        a = a + 1;
    }
    a
}

/// A text without its leading and trailing whitespace (`str::trim`).
pub(crate) fn trim_str(s: &str) -> (r: &str)
    ensures
        r@ == trim(s@),
{
    let cs = chars_of(s);
    let a = leading_ws(&cs);
    let mut e: usize = cs.len();
    while e > a && char_is_ws(cs[e - 1])
        invariant
            a <= e <= cs.len(),
            forall|k: int| e <= k < cs.len() ==> is_ws(#[trigger] cs@[k]),
        decreases e,
    {
        e = e - 1;
    }
    proof {
        lemma_trim_start_skip(s@, a as int);
        let t = s@.skip(a as int);
        assert forall|k: int| e - a <= k < t.len() implies is_ws(#[trigger] t[k]) by {
            assert(t[k] == s@[a + k]);
        }
        if e > a {
            assert(t[e - a - 1] == s@[e - 1]);
        }
        lemma_trim_end_take(t, e - a);
        assert(t.take(e - a) =~= s@.subrange(a as int, e as int));
    }
    s.substring_char(a, e)
}

proof fn lemma_word_len_is(x: Seq<char>, m: int)
    requires
        0 <= m <= x.len(),
        forall|k: int| 0 <= k < m ==> !is_ws(#[trigger] x[k]),
        m == x.len() || is_ws(x[m]),
    ensures
        word_len(x) == m,
    decreases m,
{
    if m > 0 {
        assert forall|k: int| 0 <= k < m - 1 implies !is_ws(#[trigger] x.drop_first()[k]) by {
            assert(x.drop_first()[k] == x[k + 1]);
        }
        if m < x.len() {
            assert(x.drop_first()[m - 1] == x[m]);
        }
        lemma_word_len_is(x.drop_first(), m - 1);
    }
}

/// The whitespace-separated words of a text, as owned strings
/// (`str::split_whitespace`).
pub(crate) fn split_words(s: &str) -> (r: Vec<String>)
    ensures
        strs(r@) == words(s@),
{
    let cs = chars_of(s);
    let mut out: Vec<String> = Vec::new();
    let mut i: usize = 0;
    assert(cs@.skip(0) =~= cs@);
    while i < cs.len()
        invariant
            i <= cs.len(),
            cs@ == s@,
            strs(out@) + words(cs@.skip(i as int)) == words(s@),
        decreases cs.len() - i,
    {
        let ghost x = cs@.skip(i as int);
        if char_is_ws(cs[i]) {
            assert(x[0] == cs@[i as int]);
            assert(x.drop_first() =~= cs@.skip(i + 1));
            i = i + 1;
        } else {
            let mut j: usize = i;
            while j < cs.len() && !char_is_ws(cs[j])
                invariant
                    i <= j <= cs.len(),
                    forall|k: int| i <= k < j ==> !is_ws(#[trigger] cs@[k]),
                decreases cs.len() - j,
            {
                j = j + 1;
            }
            proof {
                assert forall|k: int| 0 <= k < j - i implies !is_ws(#[trigger] x[k]) by {
                    assert(x[k] == cs@[i + k]);
                }
                if j < cs.len() {
                    assert(x[j - i] == cs@[j as int]);
                }
                lemma_word_len_is(x, j - i);
                assert(x[0] == cs@[i as int]);
            }
            let w = substring(&cs, i, j);
            let ghost before = strs(out@);
            out.push(w);
            assert(strs(out@) =~= before.push(w@));
            assert(x.take(j - i) =~= cs@.subrange(i as int, j as int));
            assert(x.skip(j - i) =~= cs@.skip(j as int));
            assert(words(x) == seq![x.take(j - i)] + words(x.skip(j - i)));
            assert(strs(out@) + words(cs@.skip(j as int)) =~= before + words(x));
            i = j;
        }
    }
    assert(cs@.skip(i as int) =~= Seq::<char>::empty());
    assert(strs(out@) + Seq::<Seq<char>>::empty() =~= strs(out@));
    out
}

/// ASCII lower-casing of a text (`str::to_ascii_lowercase`).
pub(crate) fn to_ascii_lower(s: &str) -> (r: String)
    ensures
        r@ == ascii_lower(s@),
{
    let cs = chars_of(s);
    let mut out: Vec<char> = Vec::new();
    let mut i: usize = 0;
    while i < cs.len()
        invariant
            i <= cs.len(),
            cs@ == s@,
            out@ == ascii_lower(s@).take(i as int),
        decreases cs.len() - i,
    {
        let c = cs[i];
        let l = if 'A' <= c && c <= 'Z' {
            proof {
                assert(65 <= c as u32 <= 90);
            }
            ((c as u8) + 32) as char
        } else {
            c
        };
        out.push(l);
        assert(out@ =~= ascii_lower(s@).take(i + 1));
        i = i + 1;
    }
    assert(ascii_lower(s@).take(i as int) =~= ascii_lower(s@));
    string_of(out.as_slice())
}

/// The characters of a string, in order (`str::chars`).
#[verifier::external_body]
pub(crate) fn chars_of(s: &str) -> (r: Vec<char>)
    ensures
        r@ == s@,
{
    s.chars().collect()
}

/// A string made of the given characters (`FromIterator<char>`).
#[verifier::external_body]
pub(crate) fn string_of(chars: &[char]) -> (r: String)
    ensures
        r@ == chars@,
{
    chars.iter().collect()
}

/// Text equality of two string slices (`PartialEq for str`).
#[verifier::external_body]
pub(crate) fn str_eq(a: &str, b: &str) -> (r: bool)
    ensures
        r == (a@ == b@),
{
    a == b
}

/// An owned copy of a string slice.
pub fn owned(s: &str) -> (r: String)
    ensures
        r@ == s@,
{
    s.to_owned()
}

/// Concatenation of two texts.
pub fn concat(a: &str, b: &str) -> (r: String)
    ensures
        r@ == a@ + b@,
{
    let mut r = a.to_owned();
    r.append(b);
    r
}

/// Whether `s` starts with `prefix`.
pub fn starts_with(s: &str, prefix: &str) -> (r: bool)
    ensures
        r == prefix@.is_prefix_of(s@),
{
    let sc = chars_of(s);
    let pc = chars_of(prefix);
    if pc.len() > sc.len() {
        return false;
    }
    let mut i: usize = 0;
    while i < pc.len()
        invariant
            pc@ == prefix@,
            sc@ == s@,
            pc.len() <= sc.len(),
            i <= pc.len(),
            forall|k: int| 0 <= k < i ==> pc@[k] == sc@[k],
        decreases pc.len() - i,
    {
        if pc[i] != sc[i] {
            return false;
        }
        i = i + 1;
    }
    true
}

/// `s` without `prefix`, when `s` starts with it.
pub fn strip_prefix(s: &str, prefix: &str) -> (r: Option<String>)
    ensures
        match r {
            Some(rest) => prefix@.is_prefix_of(s@) && rest@ == s@.skip(prefix@.len() as int),
            None => !prefix@.is_prefix_of(s@),
        },
{
    if starts_with(s, prefix) {
        let sc = chars_of(s);
        let pc = chars_of(prefix);
        let rest = slice_from(&sc, pc.len());
        Some(string_of(rest.as_slice()))
    } else {
        None
    }
}

/// The characters of `v` from index `start` on.
pub fn slice_from(v: &Vec<char>, start: usize) -> (r: Vec<char>)
    requires
        start <= v.len(),
    ensures
        r@ == v@.skip(start as int),
{
    slice_range(v, start, v.len())
}

/// The characters of `v` in `[start, end)`.
pub fn slice_range(v: &Vec<char>, start: usize, end: usize) -> (r: Vec<char>)
    requires
        start <= end <= v.len(),
    ensures
        r@ == v@.subrange(start as int, end as int),
{
    let mut r: Vec<char> = Vec::new();
    let mut i = start;
    while i < end
        invariant
            start <= i <= end <= v.len(),
            r@ == v@.subrange(start as int, i as int),
        decreases end - i,
    {
        r.push(v[i]);
        i = i + 1;
    }
    r
}

/// Whether `value` is one of the texts in `list`.
pub fn list_has(list: &Vec<String>, value: &str) -> (r: bool)
    ensures
        r == has_text(list@, value@),
{
    let mut i: usize = 0;
    while i < list.len()
        invariant
            i <= list.len(),
            forall|k: int| 0 <= k < i ==> list@[k]@ != value@,
        decreases list.len() - i,
    {
        if str_eq(list[i].as_str(), value) {
            return true;
        }
        i = i + 1;
    }
    false
}

/// Whether `value` starts with one of the texts in `list`.
pub fn list_has_prefix_of(list: &Vec<String>, value: &str) -> (r: bool)
    ensures
        r == has_prefix_in(list@, value@),
{
    let mut i: usize = 0;
    while i < list.len()
        invariant
            i <= list.len(),
            forall|k: int| 0 <= k < i ==> !(#[trigger] list@[k]@).is_prefix_of(value@),
        decreases list.len() - i,
    {
        if starts_with(value, list[i].as_str()) {
            return true;
        }
        i = i + 1;
    }
    false
}

/// Whether `s` is empty or whitespace only.
pub fn is_blank_str(s: &str) -> (r: bool)
    ensures
        r == is_blank(s@),
{
    let t = trim_str(s);
    let c = chars_of(t);
    c.len() == 0
}

/// Whitespace-collapsed, trimmed, ASCII lower-cased form of a text.
pub open spec fn normalize_token(s: Seq<char>) -> Seq<char> {
    ascii_lower(join(words(trim(s)), seq![' ']))
}

/// Value of a non-empty run of decimal digits.
pub open spec fn digits_value(s: Seq<char>) -> nat
    decreases s.len(),
{
    if s.len() == 0 {
        0
    } else {
        digits_value(s.drop_last()) * 10 + ((s.last() as u32) - ('0' as u32)) as nat
    }
}

pub open spec fn is_digit(c: char) -> bool {
    '0' <= c && c <= '9'
}

pub open spec fn all_digits(s: Seq<char>) -> bool {
    forall|i: int| 0 <= i < s.len() ==> is_digit(#[trigger] s[i])
}

/// The digits that `str::parse` reads for an unsigned integer: an optional
/// leading `+`, then the digits.
pub open spec fn unsigned_digits(s: Seq<char>) -> Seq<char> {
    if s.len() > 0 && s[0] == '+' {
        s.drop_first()
    } else {
        s
    }
}

/// What `str::parse` gives for an unsigned integer type whose largest value
/// is `max`: the value when the text is an optional `+` and at least one
/// decimal digit and the value fits, `None` otherwise.
pub open spec fn parse_unsigned(s: Seq<char>, max: nat) -> Option<nat> {
    let d = unsigned_digits(s);
    if d.len() > 0 && all_digits(d) && digits_value(d) <= max {
        Some(digits_value(d))
    } else {
        None
    }
}

/// A prefix of a digit run is worth no more than the whole run.
pub proof fn lemma_digits_value_prefix_bound(s: Seq<char>, j: int)
    requires
        all_digits(s),
        0 <= j <= s.len(),
    ensures
        digits_value(s.take(j)) <= digits_value(s),
    decreases s.len(),
{
    if j < s.len() {
        assert(all_digits(s.drop_last()));
        assert(s.drop_last().take(j) =~= s.take(j));
        lemma_digits_value_prefix_bound(s.drop_last(), j);
    } else {
        assert(s.take(j) =~= s);
    }
}

/// Parses an unsigned decimal number no larger than `max`, as `str::parse`
/// does for the unsigned type whose largest value is `max`.
pub fn parse_unsigned_decimal(s: &str, max: u64) -> (r: Option<u64>)
    ensures
        match r {
            Some(v) => parse_unsigned(s@, max as nat) == Some(v as nat),
            None => parse_unsigned(s@, max as nat) is None,
        },
{
    let all = chars_of(s);
    let start: usize = if all.len() > 0 && all[0] == '+' { 1 } else { 0 };
    let d = slice_from(&all, start);
    assert(d@ == unsigned_digits(s@)) by {
        if s@.len() > 0 && s@[0] == '+' {
            assert(d@ =~= s@.drop_first());
        } else {
            assert(d@ =~= s@);
        }
    }
    if d.len() == 0 {
        return None;
    }
    let mut value: u64 = 0;
    let mut i: usize = 0;
    while i < d.len()
        invariant
            i <= d.len(),
            d@ == unsigned_digits(s@),
            all_digits(d@.take(i as int)),
            value as nat == digits_value(d@.take(i as int)),
            value <= max,
        decreases d.len() - i,
    {
        let c = d[i];
        assert(d@.take(i + 1).drop_last() =~= d@.take(i as int));
        if !('0' <= c && c <= '9') {
            assert(!all_digits(d@));
            return None;
        }
        let digit: u64 = ((c as u32) - ('0' as u32)) as u64;
        let next: u128 = (value as u128) * 10 + (digit as u128);
        assert(all_digits(d@.take(i + 1)));
        assert(next == digits_value(d@.take(i + 1)));
        if next > max as u128 {
            proof {
                if all_digits(d@) {
                    lemma_digits_value_prefix_bound(d@, i + 1);
                }
            }
            return None;
        }
        value = next as u64;
        i = i + 1;
    }
    assert(d@.take(d@.len() as int) =~= d@);
    Some(value)
}

/// Joins texts with a separator between consecutive ones (`[String]::join`).
pub fn join_strings(parts: &Vec<String>, sep: &str) -> (r: String)
    ensures
        r@ == join(strs(parts@), sep@),
{
    let mut r = String::new();
    let mut i: usize = 0;
    while i < parts.len()
        invariant
            i <= parts.len(),
            r@ == join(strs(parts@).take(i as int), sep@),
        decreases parts.len() - i,
    {
        assert(strs(parts@).take(i + 1).drop_last() =~= strs(parts@).take(i as int));
        if i == 0 {
            r = parts[i].clone();
        } else {
            r.append(sep);
            r.append(parts[i].as_str());
        }
        i = i + 1;
    }
    assert(strs(parts@).take(parts.len() as int) =~= strs(parts@));
    r
}

/// `token.trim().split_whitespace().collect::<Vec<_>>().join(" ").to_ascii_lowercase()`.
pub fn normalize_text(token: &str) -> (r: String)
    ensures
        r@ == normalize_token(token@),
{
    let words_of = split_words(trim_str(token));
    let joined = join_strings(&words_of, " ");
    proof {
        reveal_strlit(" ");
    }
    assert(seq![' '] =~= " "@);
    to_ascii_lower(joined.as_str())
}

/// Owned copies of a list of string slices, in order.
pub fn string_list(items: &[&str]) -> (r: Vec<String>)
    ensures
        strs(r@) == items@.map_values(|s: &str| s@),
{
    let mut r: Vec<String> = Vec::new();
    let mut i: usize = 0;
    while i < items.len()
        invariant
            i <= items.len(),
            strs(r@) == items@.take(i as int).map_values(|s: &str| s@),
        decreases items.len() - i,
    {
        let ghost before = r@;
        let item = owned(items[i]);
        r.push(item);
        assert(r@ == before.push(item));
        assert(strs(r@) =~= strs(before).push(items@[i as int]@));
        assert(items@.take(i + 1).map_values(|s: &str| s@) =~= items@.take(i as int).map_values(|s: &str| s@).push(items@[i as int]@));
        i = i + 1;
    }
    assert(items@.take(items.len() as int) =~= items@);
    r
}
/// Whether `value` is one of the texts in `list`.
pub fn list_contains(list: &Vec<String>, value: &str) -> (r: bool)
    ensures
        r == strs(list@).contains(value@),
{
    let r = list_has(list, value);
    proof {
        if r {
            let i = choose|i: int| 0 <= i < list@.len() && #[trigger] list@[i]@ == value@;
            assert(strs(list@)[i] == value@);
        } else {
            assert forall|i: int| 0 <= i < strs(list@).len() implies strs(list@)[i] != value@ by {
                assert(strs(list@)[i] == list@[i]@);
            }
        }
    }
    r
}

/// Index of the first occurrence of `c` in `s`.
pub open spec fn first_index(s: Seq<char>, c: char) -> Option<int>
    decreases s.len(),
{
    if s.len() == 0 {
        None
    } else if s[0] == c {
        Some(0)
    } else {
        match first_index(s.drop_first(), c) {
            Some(i) => Some(i + 1),
            None => None,
        }
    }
}

/// Index of the last occurrence of `c` in `s`.
pub open spec fn last_index(s: Seq<char>, c: char) -> Option<int>
    decreases s.len(),
{
    if s.len() == 0 {
        None
    } else if s.last() == c {
        Some(s.len() - 1)
    } else {
        last_index(s.drop_last(), c)
    }
}

pub proof fn lemma_first_index(s: Seq<char>, c: char, i: int)
    requires
        0 <= i <= s.len(),
        forall|k: int| 0 <= k < i ==> s[k] != c,
    ensures
        i < s.len() && s[i] == c ==> first_index(s, c) == Some(i),
        i == s.len() ==> first_index(s, c) is None,
    decreases i,
{
    if i > 0 {
        lemma_first_index(s.drop_first(), c, i - 1);
    } else if s.len() > 0 {
    }
}

pub proof fn lemma_last_index(s: Seq<char>, c: char, i: int)
    requires
        0 <= i <= s.len(),
        forall|k: int| i <= k < s.len() ==> s[k] != c,
    ensures
        i > 0 && s[i - 1] == c ==> last_index(s, c) == Some(i - 1),
        i == 0 ==> last_index(s, c) is None,
    decreases s.len() - i,
{
    if i < s.len() {
        lemma_last_index(s.drop_last(), c, i);
    }
}

pub proof fn lemma_first_index_found(s: Seq<char>, c: char)
    ensures
        first_index(s, c) matches Some(i) ==> 0 <= i < s.len() && s[i] == c,
    decreases s.len(),
{
    if s.len() > 0 && s[0] != c {
        lemma_first_index_found(s.drop_first(), c);
    }
}

/// Index of the first `c` among the characters `v` from `start` on.
pub fn find_char_from(v: &Vec<char>, c: char, start: usize) -> (r: Option<usize>)
    requires
        start <= v.len(),
    ensures
        match r {
            Some(i) => start <= i < v.len() && first_index(v@.skip(start as int), c) == Some(i - start),
            None => first_index(v@.skip(start as int), c) is None,
        },
{
    let ghost rest = v@.skip(start as int);
    let mut i: usize = start;
    while i < v.len()
        invariant
            start <= i <= v.len(),
            rest == v@.skip(start as int),
            forall|k: int| 0 <= k < i - start ==> rest[k] != c,
        decreases v.len() - i,
    {
        if v[i] == c {
            proof {
                lemma_first_index(rest, c, i - start);
            }
            return Some(i);
        }
        i = i + 1;
    }
    proof {
        lemma_first_index(rest, c, i - start);
    }
    None
}

/// Index of the first `c` among the characters `v`.
pub fn find_char(v: &Vec<char>, c: char) -> (r: Option<usize>)
    ensures
        match r {
            Some(i) => first_index(v@, c) == Some(i as int) && i < v.len(),
            None => first_index(v@, c) is None,
        },
{
    let mut i: usize = 0;
    while i < v.len()
        invariant
            i <= v.len(),
            forall|k: int| 0 <= k < i ==> v@[k] != c,
        decreases v.len() - i,
    {
        if v[i] == c {
            proof {
                lemma_first_index(v@, c, i as int);
            }
            return Some(i);
        }
        i = i + 1;
    }
    proof {
        lemma_first_index(v@, c, i as int);
    }
    None
}

/// Index of the last `c` among the characters `v`.
pub fn rfind_char(v: &Vec<char>, c: char) -> (r: Option<usize>)
    ensures
        match r {
            Some(i) => last_index(v@, c) == Some(i as int) && i < v.len(),
            None => last_index(v@, c) is None,
        },
{
    let mut i: usize = v.len();
    while i > 0
        invariant
            i <= v.len(),
            forall|k: int| i <= k < v.len() ==> v@[k] != c,
        decreases i,
    {
        if v[i - 1] == c {
            proof {
                lemma_last_index(v@, c, i as int);
            }
            return Some(i - 1);
        }
        i = i - 1;
    }
    proof {
        lemma_last_index(v@, c, 0);
    }
    None
}

/// The text made of the characters of `v` in `[start, end)`.
pub fn substring(v: &Vec<char>, start: usize, end: usize) -> (r: String)
    requires
        start <= end <= v.len(),
    ensures
        r@ == v@.subrange(start as int, end as int),
{
    let part = slice_range(v, start, end);
    string_of(part.as_slice())
}

/// The decimal digit character of `d < 10`.
pub open spec fn digit_char(d: nat) -> char {
    ((48 + d) as u32) as char
}

/// The decimal form of a number, as `u64::to_string` writes it.
pub open spec fn decimal(n: nat) -> Seq<char>
    decreases n,
{
    if n < 10 {
        seq![digit_char(n)]
    } else {
        decimal(n / 10) + seq![digit_char(n % 10)]
    }
}

/// The decimal form of a number.
pub fn u64_decimal(n: u64) -> (r: String)
    ensures
        r@ == decimal(n as nat),
    decreases n,
{
    let d = (n % 10) as u8;
    let c = (48u8 + d) as char;
    let mut one: Vec<char> = Vec::new();
    one.push(c);
    let last = string_of(one.as_slice());
    assert(last@ =~= seq![digit_char((n % 10) as nat)]);
    if n < 10 {
        last
    } else {
        let head = u64_decimal(n / 10);
        concat(head.as_str(), last.as_str())
    }
}

/// The text with every `from` character replaced by `to`.
pub open spec fn replace_char(s: Seq<char>, from: char, to: char) -> Seq<char> {
    s.map_values(|c: char| if c == from { to } else { c })
}

/// `s.replace(from, to)` for single characters.
pub fn replace_char_exec(s: &str, from: char, to: char) -> (r: String)
    ensures
        r@ == replace_char(s@, from, to),
{
    let cs = chars_of(s);
    let mut out: Vec<char> = Vec::new();
    let mut i: usize = 0;
    while i < cs.len()
        invariant
            i <= cs.len(),
            cs@ == s@,
            out@ == replace_char(s@, from, to).take(i as int),
        decreases cs.len() - i,
    {
        let c = cs[i];
        out.push(if c == from { to } else { c });
        assert(out@ =~= replace_char(s@, from, to).take(i + 1));
        i = i + 1;
    }
    assert(replace_char(s@, from, to).take(cs.len() as int) =~= replace_char(s@, from, to));
    string_of(out.as_slice())
}

/// Whether one of `list` is a prefix of `value`.
pub open spec fn any_prefix(list: Seq<Seq<char>>, value: Seq<char>) -> bool {
    exists|i: int| 0 <= i < list.len() && (#[trigger] list[i]).is_prefix_of(value)
}

/// Whether one of `list` is a prefix of `value`.
pub fn list_any_prefix(list: &Vec<String>, value: &str) -> (r: bool)
    ensures
        r == any_prefix(strs(list@), value@),
{
    let r = list_has_prefix_of(list, value);
    proof {
        if r {
            let i = choose|i: int| 0 <= i < list@.len() && (#[trigger] list@[i]@).is_prefix_of(value@);
            assert(strs(list@)[i] == list@[i]@);
        } else {
            assert forall|i: int| 0 <= i < strs(list@).len() implies !(#[trigger] strs(list@)[i]).is_prefix_of(value@) by {
                assert(strs(list@)[i] == list@[i]@);
            }
        }
    }
    r
}

/// Index of the first occurrence of `p` in `s` (`str::find`).
pub open spec fn find_text(s: Seq<char>, p: Seq<char>) -> Option<int>
    decreases s.len(),
{
    if p.is_prefix_of(s) {
        Some(0)
    } else if s.len() == 0 {
        None
    } else {
        match find_text(s.drop_first(), p) {
            Some(i) => Some(i + 1),
            None => None,
        }
    }
}

pub proof fn lemma_find_text_skip(s: Seq<char>, p: Seq<char>, i: int)
    requires
        0 <= i <= s.len(),
        forall|k: int| 0 <= k < i ==> !(#[trigger] p.is_prefix_of(s.skip(k))),
    ensures
        find_text(s, p) == match find_text(s.skip(i), p) {
            Some(j) => Some(j + i),
            None => None,
        },
    decreases i,
{
    if i > 0 {
        assert(s.skip(0) =~= s);
        assert(!p.is_prefix_of(s.skip(0)));
        assert forall|k: int| 0 <= k < i - 1 implies !(#[trigger] p.is_prefix_of(s.drop_first().skip(k))) by {
            assert(s.drop_first().skip(k) =~= s.skip(k + 1));
        }
        lemma_find_text_skip(s.drop_first(), p, i - 1);
        assert(s.drop_first().skip(i - 1) =~= s.skip(i));
    } else {
        assert(s.skip(0) =~= s);
    }
}

/// Index of the first occurrence of `pat` among the characters `v`.
pub fn find_text_in(v: &Vec<char>, pat: &Vec<char>) -> (r: Option<usize>)
    ensures
        match r {
            Some(i) => find_text(v@, pat@) == Some(i as int) && i + pat@.len() <= v@.len(),
            None => find_text(v@, pat@) is None,
        },
{
    let mut i: usize = 0;
    loop
        invariant
            i <= v.len(),
            forall|k: int| 0 <= k < i ==> !(#[trigger] pat@.is_prefix_of(v@.skip(k))),
        decreases v.len() - i,
    {
        let rest = slice_from(v, i);
        let mut matched = pat.len() <= rest.len();
        let mut j: usize = 0;
        while matched && j < pat.len()
            invariant
                j <= pat.len(),
                matched ==> pat.len() <= rest.len(),
                matched ==> forall|k: int| 0 <= k < j ==> pat@[k] == rest@[k],
                !matched ==> !pat@.is_prefix_of(rest@),
            decreases pat.len() - j,
        {
            if pat[j] != rest[j] {
                matched = false;
            }
            j = j + 1;
        }
        assert(rest@ == v@.skip(i as int));
        if matched {
            assert(pat@.is_prefix_of(v@.skip(i as int)));
            proof {
                lemma_find_text_skip(v@, pat@, i as int);
            }
            return Some(i);
        }
        if i == v.len() {
            proof {
                lemma_find_text_skip(v@, pat@, v@.len() as int);
                assert(v@.skip(v@.len() as int) =~= Seq::<char>::empty());
                assert(find_text(Seq::<char>::empty(), pat@) is None);
            }
            return None;
        }
        i = i + 1;
    }
}

/// Whether `p` occurs in `s` (`str::contains`).
pub fn contains_str(s: &str, p: &str) -> (r: bool)
    ensures
        r == (find_text(s@, p@) is Some),
{
    let sc = chars_of(s);
    let pc = chars_of(p);
    find_text_in(&sc, &pc).is_some()
}

/// The text without every trailing `c` (`trim_end_matches` for a character).
pub open spec fn strip_trailing(s: Seq<char>, c: char) -> Seq<char>
    decreases s.len(),
{
    if s.len() > 0 && s.last() == c {
        strip_trailing(s.drop_last(), c)
    } else {
        s
    }
}

/// `s.trim_end_matches(c)`.
pub fn strip_trailing_char(s: &str, c: char) -> (r: String)
    ensures
        r@ == strip_trailing(s@, c),
{
    let cs = chars_of(s);
    let mut end: usize = cs.len();
    assert(cs@.take(cs.len() as int) =~= cs@);
    while end > 0 && cs[end - 1] == c
        invariant
            end <= cs.len(),
            cs@ == s@,
            strip_trailing(s@, c) == strip_trailing(cs@.take(end as int), c),
        decreases end,
    {
        assert(cs@.take(end as int).drop_last() =~= cs@.take(end - 1));
        end = end - 1;
    }
    assert(cs@.take(cs.len() as int) =~= cs@);
    substring(&cs, 0, end)
}

/// A text without its leading whitespace (`str::trim_start`).
pub(crate) fn trim_start_str(s: &str) -> (r: &str)
    ensures
        r@ == trim_start(s@),
{
    let cs = chars_of(s);
    let a = leading_ws(&cs);
    proof {
        lemma_trim_start_skip(s@, a as int);
        assert(s@.skip(a as int) =~= s@.subrange(a as int, s@.len() as int));
    }
    s.substring_char(a, cs.len())
}

/// The non-whitespace characters of a text, in order.
pub open spec fn non_ws(s: Seq<char>) -> Seq<char>
    decreases s.len(),
{
    if s.len() == 0 {
        seq![]
    } else if is_ws(s[0]) {
        non_ws(s.drop_first())
    } else {
        seq![s[0]] + non_ws(s.drop_first())
    }
}

/// `s.ends_with(suffix)`.
pub fn ends_with(s: &str, suffix: &str) -> (r: bool)
    ensures
        r == (suffix@.len() <= s@.len() && s@.skip(s@.len() - suffix@.len()) == suffix@),
{
    let sc = chars_of(s);
    let pc = chars_of(suffix);
    if pc.len() > sc.len() {
        return false;
    }
    let off = sc.len() - pc.len();
    let mut i: usize = 0;
    while i < pc.len()
        invariant
            pc@ == suffix@,
            sc@ == s@,
            off == sc.len() - pc.len(),
            i <= pc.len(),
            forall|k: int| 0 <= k < i ==> pc@[k] == sc@[off + k],
        decreases pc.len() - i,
    {
        if pc[i] != sc[off + i] {
            assert(s@.skip(s@.len() - suffix@.len())[i as int] == sc@[off + i]);
            return false;
        }
        i = i + 1;
    }
    assert(s@.skip(s@.len() - suffix@.len()) =~= suffix@);
    true
}

/// `char::is_whitespace`: the Unicode `White_Space` property.
pub fn char_is_ws(c: char) -> (r: bool)
    ensures
        r == is_ws(c),
{
    ('\u{9}' <= c && c <= '\u{d}') || c == ' ' || c == '\u{85}' || c == '\u{a0}' || c == '\u{1680}' || ('\u{2000}'
        <= c && c <= '\u{200a}') || c == '\u{2028}' || c == '\u{2029}' || c == '\u{202f}' || c == '\u{205f}' || c
        == '\u{3000}'
}

/// The decimal form of a signed number.
pub open spec fn signed_decimal(n: int) -> Seq<char> {
    if n < 0 {
        seq!['-'] + decimal((-n) as nat)
    } else {
        decimal(n as nat)
    }
}

/// The decimal form of a signed number.
pub fn i64_decimal(n: i64) -> (r: String)
    ensures
        r@ == signed_decimal(n as int),
{
    if n < 0 {
        let magnitude: u64 = if n == i64::MIN {
            9223372036854775808u64
        } else {
            (-n) as u64
        };
        let digits = u64_decimal(magnitude);
        proof {
            reveal_strlit("-");
        }
        let r = concat("-", digits.as_str());
        assert(r@ =~= seq!['-'] + decimal((-(n as int)) as nat));
        r
    } else {
        u64_decimal(n as u64)
    }
}

/// The first `n` characters of a text (`chars().take(n)`).
pub open spec fn take_chars(s: Seq<char>, n: nat) -> Seq<char> {
    if s.len() <= n {
        s
    } else {
        s.take(n as int)
    }
}

/// The first `n` characters of a text.
pub fn take_chars_exec(s: &str, n: usize) -> (r: String)
    ensures
        r@ == take_chars(s@, n as nat),
{
    let cs = chars_of(s);
    if cs.len() <= n {
        owned(s)
    } else {
        substring(&cs, 0, n)
    }
}

proof fn lemma_trim_start_first(s: Seq<char>)
    ensures
        trim_start(s).len() > 0 ==> !is_ws(trim_start(s)[0]),
        trim_start(s).len() > 0 ==> trim_start(s).last() == s.last(),
    decreases s.len(),
{
    if s.len() > 0 && is_ws(s[0]) {
        lemma_trim_start_first(s.drop_first());
    }
}

proof fn lemma_trim_end_last(t: Seq<char>)
    ensures
        trim_end(t).len() > 0 ==> !is_ws(trim_end(t).last()),
        trim_end(t).len() > 0 ==> trim_end(t)[0] == t[0],
    decreases t.len(),
{
    if t.len() > 0 && is_ws(t.last()) {
        lemma_trim_end_last(t.drop_last());
    }
}

/// A trimmed text is empty, or starts and ends with a character that is
/// not whitespace.
pub proof fn lemma_trim_ends(s: Seq<char>)
    ensures
        trim(s).len() > 0 ==> !is_ws(trim(s)[0]) && !is_ws(trim(s).last()),
{
    lemma_trim_start_first(s);
    lemma_trim_end_last(trim_start(s));
}

/// A text that is empty, or starts and ends with a character that is not
/// whitespace, is its own trim.
pub proof fn lemma_trim_fixed(s: Seq<char>)
    requires
        s.len() > 0 ==> !is_ws(s[0]) && !is_ws(s.last()),
    ensures
        trim(s) == s,
{
}

/// Lower-casing keeps whether a character is whitespace, and lower-cases
/// to a character that is no ASCII upper-case letter.
pub proof fn lemma_lower_char(c: char)
    ensures
        is_ws(lower_char(c)) == is_ws(c),
        !('A' <= lower_char(c) && lower_char(c) <= 'Z'),
        lower_char(lower_char(c)) == lower_char(c),
{
    if 'A' <= c && c <= 'Z' {
        assert(65 <= c as u32 <= 90);
        assert((((c as u32) + 32) as char) as u32 == (c as u32) + 32);
    }
}

/// Texts made of non-empty runs of characters that are not whitespace.
pub open spec fn good_words(ws: Seq<Seq<char>>) -> bool {
    forall|i: int| 0 <= i < ws.len() ==> ws[i].len() > 0 && forall|k: int| 0 <= k < ws[i].len() ==> !is_ws(#[trigger] ws[i][k])
}

/// Every word of a text is a non-empty run of non-whitespace characters.
pub proof fn lemma_words_good(s: Seq<char>)
    ensures
        good_words(words(s)),
    decreases s.len(),
{
    if s.len() == 0 {
    } else if is_ws(s[0]) {
        lemma_words_good(s.drop_first());
    } else {
        lemma_word_len_bounds(s);
        lemma_words_good(s.skip(word_len(s) as int));
        let w = s.take(word_len(s) as int);
        let rest = words(s.skip(word_len(s) as int));
        assert forall|i: int| 0 <= i < words(s).len() implies words(s)[i].len() > 0 && forall|k: int|
            0 <= k < words(s)[i].len() ==> !is_ws(#[trigger] words(s)[i][k]) by {
            if i == 0 {
                assert(words(s)[0] == w);
                assert forall|k: int| 0 <= k < w.len() implies !is_ws(#[trigger] w[k]) by {
                    assert(w[k] == s[k]);
                }
            } else {
                assert(words(s)[i] == rest[i - 1]);
            }
        }
    }
}

proof fn lemma_join_first(ws: Seq<Seq<char>>, sep: Seq<char>)
    requires
        ws.len() >= 2,
    ensures
        join(ws, sep) == ws[0] + sep + join(ws.drop_first(), sep),
    decreases ws.len(),
{
    if ws.len() == 2 {
        assert(ws.drop_last().len() == 1);
        assert(ws.drop_first().len() == 1);
        assert(join(ws.drop_last(), sep) == ws.drop_last()[0]);
        assert(ws.drop_last()[0] == ws[0]);
        assert(join(ws.drop_first(), sep) == ws.drop_first()[0]);
        assert(ws.drop_first()[0] == ws.last());
    } else {
        lemma_join_first(ws.drop_last(), sep);
        assert(ws.drop_last().drop_first() =~= ws.drop_first().drop_last());
        assert(ws.drop_first().last() == ws.last());
        assert(join(ws, sep) == join(ws.drop_last(), sep) + sep + ws.last());
        assert(join(ws.drop_first(), sep) == join(ws.drop_first().drop_last(), sep) + sep + ws.drop_first().last());
        assert(join(ws, sep) =~= ws[0] + sep + join(ws.drop_first(), sep));
    }
}

proof fn lemma_word_len_of(w: Seq<char>, t: Seq<char>)
    requires
        forall|k: int| 0 <= k < w.len() ==> !is_ws(#[trigger] w[k]),
        t.len() == 0 || is_ws(t[0]),
    ensures
        word_len(w + t) == w.len(),
    decreases w.len(),
{
    if w.len() > 0 {
        assert((w + t)[0] == w[0]);
        assert((w + t).drop_first() =~= w.drop_first() + t);
        assert forall|k: int| 0 <= k < w.drop_first().len() implies !is_ws(#[trigger] w.drop_first()[k]) by {
            assert(w.drop_first()[k] == w[k + 1]);
        }
        lemma_word_len_of(w.drop_first(), t);
    } else {
        assert(w + t =~= t);
    }
}

/// Joining good words with single spaces and splitting again gives the
/// words back.
proof fn lemma_words_of_join(ws: Seq<Seq<char>>)
    requires
        good_words(ws),
    ensures
        words(join(ws, seq![' '])) == ws,
    decreases ws.len(),
{
    let sp = seq![' '];
    if ws.len() == 0 {
        assert(words(join(ws, sp)) =~= ws);
    } else {
        let w = ws[0];
        let rest: Seq<char> = if ws.len() == 1 {
            seq![]
        } else {
            sp + join(ws.drop_first(), sp)
        };
        if ws.len() == 1 {
            assert(join(ws, sp) == w);
        } else {
            lemma_join_first(ws, sp);
            assert(join(ws, sp) =~= w + rest);
        }
        assert(join(ws, sp) =~= w + rest);
        assert(w.len() > 0);
        assert forall|k: int| 0 <= k < w.len() implies !is_ws(#[trigger] w[k]) by {
            assert(!is_ws(ws[0][k]));
        }
        assert(rest.len() == 0 || rest[0] == ' ');
        lemma_word_len_of(w, rest);
        let s = w + rest;
        assert(s[0] == w[0]);
        assert(!is_ws(s[0]));
        assert(s.take(w.len() as int) =~= w);
        assert(s.skip(w.len() as int) =~= rest);
        assert(words(s) == seq![w] + words(rest));
        if ws.len() == 1 {
            assert(words(rest) =~= Seq::<Seq<char>>::empty());
            assert(words(s) =~= ws);
        } else {
            let tail = ws.drop_first();
            assert forall|i: int| 0 <= i < tail.len() implies tail[i].len() > 0 && forall|k: int|
                0 <= k < tail[i].len() ==> !is_ws(#[trigger] tail[i][k]) by {
                assert(tail[i] == ws[i + 1]);
            }
            lemma_words_of_join(tail);
            assert(rest.drop_first() =~= join(tail, sp));
            assert(is_ws(rest[0]));
            assert(words(rest) == words(join(tail, sp)));
            assert(words(s) =~= ws);
        }
    }
}

proof fn lemma_lower_join(ws: Seq<Seq<char>>)
    ensures
        ascii_lower(join(ws, seq![' '])) == join(ws.map_values(|w: Seq<char>| ascii_lower(w)), seq![' ']),
    decreases ws.len(),
{
    let f = |w: Seq<char>| ascii_lower(w);
    let sp = seq![' '];
    if ws.len() == 0 {
        assert(ascii_lower(join(ws, sp)) =~= join(ws.map_values(f), sp));
    } else if ws.len() == 1 {
        assert(ws.map_values(f).len() == 1);
        assert(ws.map_values(f)[0] == ascii_lower(ws[0]));
    } else {
        lemma_lower_join(ws.drop_last());
        assert(ws.map_values(f).drop_last() =~= ws.drop_last().map_values(f));
        assert(ws.map_values(f).last() == ascii_lower(ws.last()));
        assert(lower_char(' ') == ' ');
        assert(ascii_lower(join(ws.drop_last(), sp) + sp + ws.last()) =~= ascii_lower(join(ws.drop_last(), sp))
            + sp + ascii_lower(ws.last()));
    }
}

proof fn lemma_lower_good(ws: Seq<Seq<char>>)
    requires
        good_words(ws),
    ensures
        good_words(ws.map_values(|w: Seq<char>| ascii_lower(w))),
{
    let lw = ws.map_values(|w: Seq<char>| ascii_lower(w));
    assert forall|i: int| 0 <= i < lw.len() implies lw[i].len() > 0 && forall|k: int|
        0 <= k < lw[i].len() ==> !is_ws(#[trigger] lw[i][k]) by {
        assert(lw[i] == ascii_lower(ws[i]));
        assert forall|k: int| 0 <= k < lw[i].len() implies !is_ws(#[trigger] lw[i][k]) by {
            lemma_lower_char(ws[i][k]);
            assert(!is_ws(ws[i][k]));
        }
    }
}

proof fn lemma_join_good_ends(ws: Seq<Seq<char>>)
    requires
        good_words(ws),
    ensures
        join(ws, seq![' ']).len() > 0 ==> !is_ws(join(ws, seq![' '])[0]) && !is_ws(join(ws, seq![' ']).last()),
{
    let sp = seq![' '];
    if ws.len() == 1 {
        assert(!is_ws(ws[0][0]));
        assert(!is_ws(ws[0][ws[0].len() - 1]));
    } else if ws.len() >= 2 {
        lemma_join_first(ws, sp);
        assert(join(ws, sp)[0] == ws[0][0]);
        assert(!is_ws(ws[0][0]));
        assert(join(ws, sp).last() == ws.last().last());
        assert(!is_ws(ws[ws.len() - 1][ws[ws.len() - 1].len() - 1]));
    }
}

/// Words joined by single spaces give a text that is already trimmed, and
/// that is blank exactly when there were no words.
pub proof fn lemma_joined_words_trimmed(ws: Seq<Seq<char>>)
    requires
        good_words(ws),
    ensures
        trim(join(ws, seq![' '])) == join(ws, seq![' ']),
        is_blank(join(ws, seq![' '])) <==> ws.len() == 0,
    decreases ws.len(),
{
    let sp = seq![' '];
    lemma_join_good_ends(ws);
    lemma_trim_fixed(join(ws, sp));
    if ws.len() == 1 {
        assert(join(ws, sp) == ws[0]);
    } else if ws.len() >= 2 {
        assert(join(ws, sp) == join(ws.drop_last(), sp) + sp + ws.last());
    }
}

/// Normalising a token twice is normalising it once; the normal form has
/// no surrounding whitespace and no ASCII upper-case letter.
pub proof fn lemma_normalize_token_idempotent(s: Seq<char>)
    ensures
        normalize_token(normalize_token(s)) == normalize_token(s),
        trim(normalize_token(s)) == normalize_token(s),
        normalize_token(s).len() > 0 ==> !is_ws(normalize_token(s)[0]) && !is_ws(normalize_token(s).last()),
        forall|i: int|
            0 <= i < normalize_token(s).len() ==> !('A' <= #[trigger] normalize_token(s)[i] && normalize_token(s)[i] <= 'Z'),
{
    let sp = seq![' '];
    let ws = words(trim(s));
    lemma_words_good(trim(s));
    let lw = ws.map_values(|w: Seq<char>| ascii_lower(w));
    lemma_lower_join(ws);
    lemma_lower_good(ws);
    let n = normalize_token(s);
    assert(n == join(lw, sp));
    lemma_join_good_ends(lw);
    lemma_trim_fixed(n);
    lemma_words_of_join(lw);
    assert(words(trim(n)) == lw);
    assert forall|i: int| 0 <= i < n.len() implies !('A' <= #[trigger] n[i] && n[i] <= 'Z') && lower_char(n[i]) == n[i] by {
        assert(n[i] == lower_char(join(ws, sp)[i]));
        lemma_lower_char(join(ws, sp)[i]);
    }
    assert(ascii_lower(n) =~= n);
}

/// In good words joined by single spaces, a whitespace character is never
/// followed by another.
proof fn lemma_join_good_single_ws(ws: Seq<Seq<char>>)
    requires
        good_words(ws),
    ensures
        forall|i: int|
            0 <= i < join(ws, seq![' ']).len() - 1 && is_ws(#[trigger] join(ws, seq![' '])[i]) ==> !is_ws(
                join(ws, seq![' '])[i + 1],
            ),
    decreases ws.len(),
{
    let sp = seq![' '];
    let j = join(ws, sp);
    if ws.len() == 1 {
        assert forall|i: int| 0 <= i < j.len() - 1 && is_ws(#[trigger] j[i]) implies !is_ws(j[i + 1]) by {
            assert(!is_ws(ws[0][i]));
        }
    } else if ws.len() >= 2 {
        let init = ws.drop_last();
        let last = ws.last();
        assert forall|i: int| 0 <= i < init.len() implies init[i].len() > 0 && forall|k: int|
            0 <= k < init[i].len() ==> !is_ws(#[trigger] init[i][k]) by {
            assert(init[i] == ws[i]);
        }
        lemma_join_good_single_ws(init);
        lemma_join_good_ends(init);
        let a = join(init, sp);
        assert(j == a + sp + last);
        assert(a.len() > 0) by {
            assert(init.len() >= 1);
            if init.len() == 1 {
                assert(a == init[0]);
            } else {
                assert(a == join(init.drop_last(), sp) + sp + init.last());
            }
        }
        assert forall|i: int| 0 <= i < j.len() - 1 && is_ws(#[trigger] j[i]) implies !is_ws(j[i + 1]) by {
            if i < a.len() - 1 {
                assert(j[i] == a[i] && j[i + 1] == a[i + 1]);
            } else if i == a.len() - 1 {
                assert(j[i] == a.last());
            } else if i == a.len() {
                assert(j[i + 1] == last[0]);
                assert(!is_ws(ws[ws.len() - 1][0]));
            } else {
                let k = i - a.len() - 1;
                assert(j[i] == last[k]);
                assert(!is_ws(ws[ws.len() - 1][k]));
            }
        }
    }
}

/// The normal form of a token never holds two whitespace characters in a
/// row, so in particular never two spaces.
pub proof fn lemma_normalize_token_single_spaces(s: Seq<char>)
    ensures
        forall|i: int|
            0 <= i < normalize_token(s).len() - 1 && is_ws(#[trigger] normalize_token(s)[i]) ==> !is_ws(
                normalize_token(s)[i + 1],
            ),
        forall|i: int|
            0 <= i < normalize_token(s).len() - 1 && #[trigger] normalize_token(s)[i] == ' ' ==> normalize_token(s)[i + 1]
                != ' ',
{
    let sp = seq![' '];
    let ws = words(trim(s));
    lemma_words_good(trim(s));
    lemma_lower_join(ws);
    lemma_lower_good(ws);
    let lw = ws.map_values(|w: Seq<char>| ascii_lower(w));
    let n = normalize_token(s);
    assert(n == join(lw, sp));
    lemma_join_good_single_ws(lw);
    assert forall|i: int| 0 <= i < n.len() - 1 && #[trigger] n[i] == ' ' implies n[i + 1] != ' ' by {
        assert(is_ws(n[i]));
    }
}

} // verus!
