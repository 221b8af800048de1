//! Character-level string utilities: substring search, suffix tests,
//! whitespace trimming and non-ASCII replacement, all specified over
//! sequences of characters.
use vstd::prelude::*;

verus! {

/// View of an optional string as an optional character sequence.
pub open spec fn opt_str_view(r: Option<String>) -> Option<Seq<char>> {
    match r {
        Some(s) => Some(s@),
        None => None,
    }
}

/// Relies on String::push: appends one character at the end of the string.
#[verifier::external_body]
pub fn push_char(s: &mut String, c: char)
    ensures
        final(s)@ == old(s)@.push(c),
{
    s.push(c);
}

/// Collects a character vector into a string.
pub fn chars_to_string(v: &Vec<char>) -> (s: String)
    ensures
        s@ == v@,
{
    let mut s = String::new();
    let mut i: usize = 0;
    while i < v.len()
        invariant
            i <= v@.len(),
            s@ =~= v@.take(i as int),
        decreases v@.len() - i,
    {
        push_char(&mut s, v[i]);
        assert(s@ =~= v@.take(i as int + 1));
        i = i + 1;
    }
    assert(v@.take(v@.len() as int) =~= v@);
    s
}

/// Appends all characters of `w` at the end of `v`.
pub fn append_chars(v: &mut Vec<char>, w: &Vec<char>)
    ensures
        final(v)@ == old(v)@ + w@,
{
    let mut j: usize = 0;
    while j < w.len()
        invariant
            j <= w@.len(),
            v@ =~= old(v)@ + w@.take(j as int),
        decreases w@.len() - j,
    {
        v.push(w[j]);
        assert(v@ =~= old(v)@ + w@.take(j as int + 1));
        j = j + 1;
    }
    assert(w@.take(w@.len() as int) =~= w@);
}

/// The characters of a string slice, in order.
pub fn str_chars(s: &str) -> (v: Vec<char>)
    ensures
        v@ == s@,
{
    let n = s.unicode_len();
    let mut v: Vec<char> = Vec::new();
    let mut i: usize = 0;
    while i < n
        invariant
            i <= n,
            n == s@.len(),
            v@ =~= s@.take(i as int),
        decreases n - i,
    {
        v.push(s.get_char(i));
        assert(v@ =~= s@.take(i as int + 1));
        i = i + 1;
    }
    assert(s@.take(s@.len() as int) =~= s@);
    v
}

/// The pattern occurs in the text starting at position `i`.
pub open spec fn occurs_at(text: Seq<char>, pat: Seq<char>, i: int) -> bool {
    0 <= i && i + pat.len() <= text.len() && text.subrange(i, i + pat.len() as int) == pat
}

/// The pattern occurs somewhere in the text.
pub open spec fn contains_str(text: Seq<char>, pat: Seq<char>) -> bool {
    exists|i: int| occurs_at(text, pat, i)
}

/// Whether the pattern occurs in the text exactly at position `at`.
fn matches_at(text: &str, pat: &str, at: usize) -> (r: bool)
    requires
        at + pat@.len() <= text@.len(),
    ensures
        r == occurs_at(text@, pat@, at as int),
{
    let n = text.unicode_len();
    let m = pat.unicode_len();
    let mut j: usize = 0;
    while j < m
        invariant
            j <= m,
            n == text@.len(),
            m == pat@.len(),
            at + m <= n,
            forall|k: int| 0 <= k < j ==> text@[at + k] == pat@[k],
        decreases m - j,
    {
        if text.get_char(at + j) != pat.get_char(j) {
            assert(text@.subrange(at as int, at + m as int)[j as int] != pat@[j as int]);
            return false;
        }
        j = j + 1;
    }
    assert(text@.subrange(at as int, at + m as int) =~= pat@);
    true
}

/// Substring search over the characters of the text.
pub fn str_contains(text: &str, pat: &str) -> (r: bool)
    ensures
        r == contains_str(text@, pat@),
{
    let n = text.unicode_len();
    let m = pat.unicode_len();
    if m > n {
        assert(forall|i: int| !occurs_at(text@, pat@, i));
        return false;
    }
    if m == 0 {
        assert(text@.subrange(0, 0) =~= pat@);
        assert(occurs_at(text@, pat@, 0));
        return true;
    }
    let mut i: usize = 0;
    while i <= n - m
        invariant
            1 <= m <= n,
            n == text@.len(),
            m == pat@.len(),
            i <= n - m + 1,
            forall|k: int| 0 <= k < i ==> !occurs_at(text@, pat@, k),
        decreases n - m + 1 - i,
    {
        if matches_at(text, pat, i) {
            return true;
        }
        i = i + 1;
    }
    assert forall|k: int| !occurs_at(text@, pat@, k) by {
        if 0 <= k <= n - m {
            assert(!occurs_at(text@, pat@, k));
        }
    }
    false
}

/// Whether the text ends with the given suffix.
pub open spec fn is_suffix(text: Seq<char>, suf: Seq<char>) -> bool {
    suf.len() <= text.len() && text.subrange(text.len() - suf.len(), text.len() as int) == suf
}

/// Suffix test over the characters of the text.
pub fn str_ends_with(text: &str, suf: &str) -> (r: bool)
    ensures
        r == is_suffix(text@, suf@),
{
    let n = text.unicode_len();
    let m = suf.unicode_len();
    if m > n {
        return false;
    }
    matches_at(text, suf, n - m)
}

/// Character-by-character string equality.
pub fn str_eq(a: &str, b: &str) -> (r: bool)
    ensures
        r == (a@ == b@),
{
    let n = a.unicode_len();
    let m = b.unicode_len();
    if n != m {
        return false;
    }
    let mut i: usize = 0;
    while i < n
        invariant
            i <= n,
            n == a@.len(),
            n == b@.len(),
            forall|k: int| 0 <= k < i ==> a@[k] == b@[k],
        decreases n - i,
    {
        if a.get_char(i) != b.get_char(i) {
            return false;
        }
        i = i + 1;
    }
    assert(a@ =~= b@);
    true
}

/// The character sequences of a list of strings.
pub open spec fn str_views(ss: Seq<String>) -> Seq<Seq<char>> {
    ss.map_values(|s: String| s@)
}

/// Some entry of the list occurs in the line.
pub open spec fn contains_any(line: Seq<char>, list: Seq<Seq<char>>) -> bool {
    exists|i: int| 0 <= i < list.len() && contains_str(line, list[i])
}

/// Whether any entry of the list occurs in the line.
pub fn str_contains_any(line: &str, list: &Vec<String>) -> (r: bool)
    ensures
        r == contains_any(line@, str_views(list@)),
{
    let mut i: usize = 0;
    while i < list.len()
        invariant
            i <= list@.len(),
            forall|k: int| 0 <= k < i ==> !contains_str(line@, str_views(list@)[k]),
        decreases list@.len() - i,
    {
        if str_contains(line, list[i].as_str()) {
            assert(contains_str(line@, str_views(list@)[i as int]));
            return true;
        }
        i = i + 1;
    }
    false
}

/// The string is one of the list's entries.
pub open spec fn str_in_list(list: Seq<String>, x: Seq<char>) -> bool {
    exists|i: int| 0 <= i < list.len() && list[i]@ == x
}

/// Whether the string is one of the list's entries.
pub fn str_list_contains(list: &Vec<String>, x: &str) -> (r: bool)
    ensures
        r == str_in_list(list@, x@),
{
    let mut i: usize = 0;
    while i < list.len()
        invariant
            i <= list@.len(),
            forall|k: int| 0 <= k < i ==> (#[trigger] list@[k])@ != x@,
        decreases list@.len() - i,
    {
        if str_eq(list[i].as_str(), x) {
            return true;
        }
        i = i + 1;
    }
    false
}

/// Cloning a vector of strings keeps it equal, value for value.
pub proof fn lemma_string_vec_clone_eq(a: Vec<String>, b: Vec<String>)
    requires
        a@.len() == b@.len(),
        forall|i: int| #![all_triggers] 0 <= i < a@.len() ==> cloned::<String>(a@[i], b@[i]),
    ensures
        b@ == a@,
{
    assert forall|i: int| 0 <= i < a@.len() implies b@[i] == a@[i] by {
        assert(cloned::<String>(a@[i], b@[i]));
    }
    assert(b@ =~= a@);
}

/// Whitespace characters stripped by trimming.
pub open spec fn is_space_char(c: char) -> bool {
    c == ' ' || c == '\t' || c == '\n' || c == '\r'
}

/// The sequence with leading whitespace removed.
pub open spec fn trim_front(s: Seq<char>) -> Seq<char>
    decreases s.len(),
{
    if s.len() > 0 && is_space_char(s[0]) {
        trim_front(s.drop_first())
    } else {
        s
    }
}

/// The sequence with trailing whitespace removed.
pub open spec fn trim_back(s: Seq<char>) -> Seq<char>
    decreases s.len(),
{
    if s.len() > 0 && is_space_char(s.last()) {
        trim_back(s.drop_last())
    } else {
        s
    }
}

/// The sequence with whitespace removed from both ends.
pub open spec fn trim_spec(s: Seq<char>) -> Seq<char> {
    trim_back(trim_front(s))
}

proof fn lemma_trim_front_skip(s: Seq<char>, a: int)
    requires
        0 <= a <= s.len(),
        forall|k: int| 0 <= k < a ==> is_space_char(s[k]),
        a < s.len() ==> !is_space_char(s[a]),
    ensures
        trim_front(s) == s.skip(a),
    decreases a,
{
    if a == 0 {
        assert(s.skip(0) =~= s);
    } else {
        lemma_trim_front_skip(s.drop_first(), a - 1);
        assert(s.drop_first().skip(a - 1) =~= s.skip(a));
    }
}

proof fn lemma_trim_back_take(s: Seq<char>, b: int)
    requires
        0 <= b <= s.len(),
        forall|k: int| b <= k < s.len() ==> is_space_char(s[k]),
        b > 0 ==> !is_space_char(s[b - 1]),
    ensures
        trim_back(s) == s.take(b),
    decreases s.len() - b,
{
    if b == s.len() {
        assert(s.take(b) =~= s);
    } else {
        lemma_trim_back_take(s.drop_last(), b);
        assert(s.drop_last().take(b) =~= s.take(b));
    }
}

/// Removes whitespace from both ends of the string.
pub fn str_trim(s: &str) -> (r: String)
    ensures
        r@ == trim_spec(s@),
{
    let n = s.unicode_len();
    let mut a: usize = 0;
    while a < n && is_space_exec(s.get_char(a))
        invariant
            a <= n,
            n == s@.len(),
            forall|k: int| 0 <= k < a ==> is_space_char(s@[k]),
        decreases n - a,
    {
        a = a + 1;
    }
    proof {
        lemma_trim_front_skip(s@, a as int);
    }
    let mut b: usize = n;
    while b > a && is_space_exec(s.get_char(b - 1))
        invariant
            a <= b <= n,
            n == s@.len(),
            forall|k: int| b <= k < n ==> is_space_char(s@[k]),
        decreases b,
    {
        b = b - 1;
    }
    let mut v: Vec<char> = Vec::new();
    let mut i: usize = a;
    while i < b
        invariant
            a <= i <= b <= n,
            n == s@.len(),
            v@ =~= s@.subrange(a as int, i as int),
        decreases b - i,
    {
        v.push(s.get_char(i));
        assert(v@ =~= s@.subrange(a as int, i as int + 1));
        i = i + 1;
    }
    proof {
        if b == a {
            lemma_trim_back_take(s@.skip(a as int), 0);
        } else {
            lemma_trim_back_take(s@.skip(a as int), b - a);
        }
        assert(s@.skip(a as int).take(b - a) =~= s@.subrange(a as int, b as int));
    }
    chars_to_string(&v)
}

fn is_space_exec(c: char) -> (r: bool)
    ensures
        r == is_space_char(c),
{
    c == ' ' || c == '\t' || c == '\n' || c == '\r'
}

/// An ASCII character.
pub open spec fn is_ascii_char(c: char) -> bool {
    c <= '\u{7f}'
}

/// All characters of the sequence are ASCII.
pub open spec fn all_ascii(s: Seq<char>) -> bool {
    forall|i: int| 0 <= i < s.len() ==> is_ascii_char(#[trigger] s[i])
}

fn is_ascii_exec(c: char) -> (r: bool)
    ensures
        r == is_ascii_char(c),
{
    (c as u32) <= 127
}

/// Whether the string consists of ASCII characters only.
pub fn str_all_ascii(s: &str) -> (r: bool)
    ensures
        r == all_ascii(s@),
{
    let n = s.unicode_len();
    let mut i: usize = 0;
    while i < n
        invariant
            i <= n,
            n == s@.len(),
            forall|k: int| 0 <= k < i ==> is_ascii_char(#[trigger] s@[k]),
        decreases n - i,
    {
        if !is_ascii_exec(s.get_char(i)) {
            return false;
        }
        i = i + 1;
    }
    true
}

/// The sequence with every non-ASCII character replaced by the replacement
/// sequence.
pub open spec fn replace_non_ascii_spec(s: Seq<char>, repl: Seq<char>) -> Seq<char>
    decreases s.len(),
{
    if s.len() == 0 {
        Seq::empty()
    } else {
        replace_non_ascii_spec(s.drop_last(), repl) + (if is_ascii_char(s.last()) {
            seq![s.last()]
        } else {
            repl
        })
    }
}

/// Replaces every non-ASCII character of the string by the replacement string.
pub fn replace_non_ascii(s: &str, repl: &str) -> (r: String)
    ensures
        r@ == replace_non_ascii_spec(s@, repl@),
{
    let n = s.unicode_len();
    let rv = str_chars(repl);
    let mut v: Vec<char> = Vec::new();
    let mut i: usize = 0;
    while i < n
        invariant
            i <= n,
            n == s@.len(),
            rv@ == repl@,
            v@ =~= replace_non_ascii_spec(s@.take(i as int), repl@),
        decreases n - i,
    {
        let c = s.get_char(i);
        if is_ascii_exec(c) {
            v.push(c);
        } else {
            let mut j: usize = 0;
            let ghost base = v@;
            while j < rv.len()
                invariant
                    j <= rv@.len(),
                    v@ =~= base + rv@.take(j as int),
                decreases rv@.len() - j,
            {
                v.push(rv[j]);
                assert(v@ =~= base + rv@.take(j as int + 1));
                j = j + 1;
            }
            assert(rv@.take(rv@.len() as int) =~= rv@);
        }
        proof {
            assert(s@.take(i as int + 1).drop_last() =~= s@.take(i as int));
            assert(s@.take(i as int + 1).last() == s@[i as int]);
        }
        assert(v@ =~= replace_non_ascii_spec(s@.take(i as int + 1), repl@));
        i = i + 1;
    }
    assert(s@.take(s@.len() as int) =~= s@);
    chars_to_string(&v)
}

/// What str::to_lowercase returns: a function of the characters alone.
pub uninterp spec fn lower_of(s: Seq<char>) -> Seq<char>;

/// Relies on str::to_lowercase: the Unicode lowercase form, a function of the
/// characters alone.
#[verifier::external_body]
pub fn lowercase(s: &str) -> (r: String)
    ensures
        r@ == lower_of(s@),
{
    s.to_lowercase()
}

} // verus!
