//! Decomposition of a path written with `/` separators into its base name,
//! file stem and extension.
use vstd::prelude::*;

use crate::text::chars_to_string;

verus! {

/// The part of the path after its last separator; empty when the path ends
/// with a separator.
pub open spec fn base_name_spec(s: Seq<char>) -> Seq<char>
    decreases s.len(),
{
    if s.len() == 0 {
        s
    } else if s.last() == '/' {
        Seq::empty()
    } else {
        base_name_spec(s.drop_last()).push(s.last())
    }
}

/// The position of the last dot of the name, or -1 when it has none.
pub open spec fn last_dot(b: Seq<char>) -> int
    decreases b.len(),
{
    if b.len() == 0 {
        -1
    } else if b.last() == '.' {
        b.len() - 1
    } else {
        last_dot(b.drop_last())
    }
}

/// The extension of a base name: what follows the last dot, provided
/// something precedes that dot; a name whose only dot begins it has none.
pub open spec fn extension_spec(b: Seq<char>) -> Option<Seq<char>> {
    if last_dot(b) <= 0 {
        None
    } else {
        Some(b.skip(last_dot(b) + 1))
    }
}

/// The stem of a base name: what precedes its extension.
pub open spec fn stem_spec(b: Seq<char>) -> Seq<char> {
    if last_dot(b) <= 0 {
        b
    } else {
        b.take(last_dot(b))
    }
}

proof fn lemma_base_name_at(s: Seq<char>, a: int)
    requires
        0 <= a <= s.len(),
        forall|k: int| a <= k < s.len() ==> s[k] != '/',
        a > 0 ==> s[a - 1] == '/',
    ensures
        base_name_spec(s) == s.skip(a),
    decreases s.len() - a,
{
    if a == s.len() {
        if a > 0 {
            assert(base_name_spec(s) =~= s.skip(a));
        } else {
            assert(s.skip(0) =~= s);
        }
    } else {
        lemma_base_name_at(s.drop_last(), a);
        assert(s.drop_last().skip(a) =~= s.skip(a).drop_last());
        assert(base_name_spec(s) =~= s.skip(a));
    }
}

proof fn lemma_last_dot_at(b: Seq<char>, d: int)
    requires
        -1 <= d < b.len(),
        forall|k: int| d < k < b.len() ==> b[k] != '.',
        d >= 0 ==> b[d] == '.',
    ensures
        last_dot(b) == d,
    decreases b.len(),
{
    if b.len() > 0 {
        if b.last() == '.' {
        } else {
            lemma_last_dot_at(b.drop_last(), d);
        }
    }
}

/// The base name of the path: the part after its last separator.
pub fn base_name(path: &str) -> (r: String)
    ensures
        r@ == base_name_spec(path@),
{
    let n = path.unicode_len();
    let mut a: usize = n;
    while a > 0 && path.get_char(a - 1) != '/'
        invariant
            a <= n,
            n == path@.len(),
            forall|k: int| a <= k < n ==> path@[k] != '/',
        decreases a,
    {
        a = a - 1;
    }
    proof {
        lemma_base_name_at(path@, a as int);
    }
    let mut v: Vec<char> = Vec::new();
    let mut i: usize = a;
    while i < n
        invariant
            a <= i <= n,
            n == path@.len(),
            v@ =~= path@.subrange(a as int, i as int),
        decreases n - i,
    {
        v.push(path.get_char(i));
        assert(v@ =~= path@.subrange(a as int, i as int + 1));
        i = i + 1;
    }
    assert(path@.subrange(a as int, n as int) =~= path@.skip(a as int));
    chars_to_string(&v)
}

/// The stem and extension of a base name; the extension is absent when the
/// name has no dot, or only its leading one.
pub fn split_stem_extension(name: &str) -> (r: (String, Option<String>))
    ensures
        r.0@ == stem_spec(name@),
        match r.1 {
            Some(e) => extension_spec(name@) == Some(e@),
            None => extension_spec(name@) is None,
        },
{
    let n = name.unicode_len();
    let mut d: usize = n;
    while d > 0 && name.get_char(d - 1) != '.'
        invariant
            d <= n,
            n == name@.len(),
            forall|k: int| d <= k < n ==> name@[k] != '.',
        decreases d,
    {
        d = d - 1;
    }
    // d is 0 when there is no dot; otherwise d - 1 is the last dot.
    proof {
        if d == 0 {
            lemma_last_dot_at(name@, -1);
        } else {
            lemma_last_dot_at(name@, d as int - 1);
        }
    }
    if d <= 1 {
        let mut v: Vec<char> = Vec::new();
        let mut i: usize = 0;
        while i < n
            invariant
                i <= n,
                n == name@.len(),
                v@ =~= name@.take(i as int),
            decreases n - i,
        {
            v.push(name.get_char(i));
            assert(v@ =~= name@.take(i as int + 1));
            i = i + 1;
        }
        assert(name@.take(n as int) =~= name@);
        (chars_to_string(&v), None)
    } else {
        let mut sv: Vec<char> = Vec::new();
        let mut i: usize = 0;
        while i < d - 1
            invariant
                2 <= d <= n,
                i <= d - 1,
                n == name@.len(),
                sv@ =~= name@.take(i as int),
            decreases d - 1 - i,
        {
            sv.push(name.get_char(i));
            assert(sv@ =~= name@.take(i as int + 1));
            i = i + 1;
        }
        let mut ev: Vec<char> = Vec::new();
        let mut j: usize = d;
        while j < n
            invariant
                2 <= d <= j <= n,
                n == name@.len(),
                ev@ =~= name@.subrange(d as int, j as int),
            decreases n - j,
        {
            ev.push(name.get_char(j));
            assert(ev@ =~= name@.subrange(d as int, j as int + 1));
            j = j + 1;
        }
        assert(name@.subrange(d as int, n as int) =~= name@.skip(d as int));
        (chars_to_string(&sv), Some(chars_to_string(&ev)))
    }
}

} // verus!
