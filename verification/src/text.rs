//! Character-level string operations used by the generator and the
//! credential provider: building strings, replacing and removing characters,
//! and the lexicographic order of strings.
use vstd::prelude::*;
use vstd::std_specs::iter::IteratorSpec;

verus! {

/// Appends one character to a string (`String::push`).
#[verifier::external_body]
fn push_char(s: &mut String, c: char)
    ensures
        final(s)@ == old(s)@.push(c),
{
    s.push(c);
}

/// The characters of a string, in order.
pub fn chars_of(s: &str) -> (v: Vec<char>)
    ensures
        v@ == s@,
{
    let mut v: Vec<char> = Vec::new();
    let mut it = s.chars();
    for c in iter: it
        invariant
            iter.seq() == s@,
            v@ == iter.seq().take(iter.index()),
    {
        v.push(c);
    }
    assert(v@ =~= s@);
    v
}


/// `s` with every occurrence of `from` replaced by `to`.
pub open spec fn spec_replace_char(s: Seq<char>, from: char, to: char) -> Seq<char> {
    s.map_values(|c: char| if c == from { to } else { c })
}

/// `s` without any occurrence of `removed`.
pub open spec fn spec_remove_char(s: Seq<char>, removed: char) -> Seq<char> {
    s.filter(|c: char| c != removed)
}

/// Replaces every occurrence of the character `from` by `to`
/// (`str::replace` with one-character patterns).
pub fn replace_char(s: &str, from: char, to: char) -> (r: String)
    ensures
        r@ == spec_replace_char(s@, from, to),
{
    let cs = chars_of(s);
    let mut r = String::new();
    let mut i: usize = 0;
    while i < cs.len()
        invariant
            cs@ == s@,
            0 <= i <= cs.len(),
            r@ =~= spec_replace_char(s@.take(i as int), from, to),
        decreases cs.len() - i,
    {
        let c = cs[i];
        if c == from {
            push_char(&mut r, to);
        } else {
            push_char(&mut r, c);
        }
        assert(s@.take(i + 1) =~= s@.take(i as int).push(c));
        i = i + 1;
    }
    assert(s@.take(cs.len() as int) =~= s@);
    r
}

/// Removes every occurrence of the character `removed`
/// (`str::replace` with a one-character pattern and an empty replacement).
pub fn remove_char(s: &str, removed: char) -> (r: String)
    ensures
        r@ == spec_remove_char(s@, removed),
{
    let cs = chars_of(s);
    let mut r = String::new();
    let mut i: usize = 0;
    while i < cs.len()
        invariant
            cs@ == s@,
            0 <= i <= cs.len(),
            r@ =~= spec_remove_char(s@.take(i as int), removed),
        decreases cs.len() - i,
    {
        let c = cs[i];
        proof {
            reveal_with_fuel(Seq::<_>::filter, 1);
            assert(s@.take(i + 1).drop_last() =~= s@.take(i as int));
        }
        if c != removed {
            push_char(&mut r, c);
        }
        i = i + 1;
    }
    assert(s@.take(cs.len() as int) =~= s@);
    r
}

/// Removing a character leaves no occurrence of it.
pub proof fn lemma_remove_char_removes_all(s: Seq<char>, removed: char)
    ensures
        !spec_remove_char(s, removed).contains(removed),
{
    let p = |c: char| c != removed;
    if spec_remove_char(s, removed).contains(removed) {
        let i = choose|i: int|
            0 <= i < s.filter(p).len() && s.filter(p)[i] == removed;
        s.lemma_filter_pred(p, i);
    }
}

/// A string without the character is left unchanged by removing it.
pub proof fn lemma_remove_char_absent(s: Seq<char>, removed: char)
    requires
        !s.contains(removed),
    ensures
        spec_remove_char(s, removed) == s,
    decreases s.len(),
{
    reveal_with_fuel(Seq::<_>::filter, 1);
    if s.len() > 0 {
        assert(!s.drop_last().contains(removed)) by {
            if s.drop_last().contains(removed) {
                let i = choose|i: int| 0 <= i < s.drop_last().len() && s.drop_last()[i] == removed;
                assert(s[i] == removed);
            }
        }
        lemma_remove_char_absent(s.drop_last(), removed);
        assert(s.last() != removed) by {
            assert(s[s.len() - 1] == s.last());
        }
        assert(s.drop_last().push(s.last()) =~= s);
    }
}

/// Removing a character twice is the same as removing it once.
pub proof fn lemma_remove_char_idempotent(s: Seq<char>, removed: char)
    ensures
        spec_remove_char(spec_remove_char(s, removed), removed) == spec_remove_char(s, removed),
{
    lemma_remove_char_removes_all(s, removed);
    lemma_remove_char_absent(spec_remove_char(s, removed), removed);
}

/// Replacing a character leaves no occurrence of it when the replacement differs.
pub proof fn lemma_replace_char_replaces_all(s: Seq<char>, from: char, to: char)
    requires
        from != to,
    ensures
        !spec_replace_char(s, from, to).contains(from),
        spec_replace_char(s, from, to).len() == s.len(),
{
    let r = spec_replace_char(s, from, to);
    if r.contains(from) {
        let i = choose|i: int| 0 <= i < r.len() && r[i] == from;
        assert(r[i] == (if s[i] == from { to } else { s[i] }));
    }
}

/// Each character of a replaced sequence is the original character, or the
/// replacement where the original is the replaced character.
pub proof fn lemma_replace_char_pointwise(s: Seq<char>, from: char, to: char)
    ensures
        spec_replace_char(s, from, to).len() == s.len(),
        forall|i: int|
            0 <= i < s.len() ==> #[trigger] spec_replace_char(s, from, to)[i] == (if s[i] == from {
                to
            } else {
                s[i]
            }),
{
}

/// Removing a character from a concatenation removes it from each part.
pub proof fn lemma_remove_char_concat(a: Seq<char>, b: Seq<char>, removed: char)
    ensures
        spec_remove_char(a + b, removed) == spec_remove_char(a, removed) + spec_remove_char(
            b,
            removed,
        ),
{
    broadcast use Seq::filter_distributes_over_add;

}

/// Removing a character from a one-character sequence drops exactly that
/// character and keeps any other.
pub proof fn lemma_remove_char_single(x: char, removed: char)
    ensures
        spec_remove_char(seq![x], removed) == (if x == removed {
            Seq::<char>::empty()
        } else {
            seq![x]
        }),
{
    reveal_with_fuel(Seq::<_>::filter, 2);
    assert(seq![x].drop_last() =~= Seq::<char>::empty());
    assert(seq![x].last() == x);
    if x != removed {
        assert(Seq::<char>::empty().push(x) =~= seq![x]);
    }
}

/// A concatenation holds a character only when one of its parts does.
pub proof fn lemma_concat_contains(a: Seq<char>, b: Seq<char>, c: char)
    ensures
        (a + b).contains(c) <==> (a.contains(c) || b.contains(c)),
{
    if (a + b).contains(c) {
        let i = choose|i: int| 0 <= i < (a + b).len() && (a + b)[i] == c;
        if i < a.len() {
            assert(a[i] == c);
        } else {
            assert(b[i - a.len()] == c);
        }
    }
    if a.contains(c) {
        let i = choose|i: int| 0 <= i < a.len() && a[i] == c;
        assert((a + b)[i] == c);
    }
    if b.contains(c) {
        let i = choose|i: int| 0 <= i < b.len() && b[i] == c;
        assert((a + b)[a.len() + i] == c);
    }
}

/// Strict lexicographic order of character sequences, by code point
/// (the order in which `String`s sort).
pub open spec fn spec_lex_less(a: Seq<char>, b: Seq<char>) -> bool
    decreases a.len(),
{
    if a.len() == 0 {
        b.len() > 0
    } else if b.len() == 0 {
        false
    } else if a[0] != b[0] {
        a[0] < b[0]
    } else {
        spec_lex_less(a.drop_first(), b.drop_first())
    }
}

/// No sequence is less than itself.
pub proof fn lemma_lex_irreflexive(a: Seq<char>)
    ensures
        !spec_lex_less(a, a),
    decreases a.len(),
{
    if a.len() > 0 {
        lemma_lex_irreflexive(a.drop_first());
    }
}

/// The lexicographic order is transitive.
pub proof fn lemma_lex_transitive(a: Seq<char>, b: Seq<char>, c: Seq<char>)
    requires
        spec_lex_less(a, b),
        spec_lex_less(b, c),
    ensures
        spec_lex_less(a, c),
    decreases a.len(),
{
    if a.len() > 0 && b.len() > 0 && c.len() > 0 && a[0] == b[0] && b[0] == c[0] {
        lemma_lex_transitive(a.drop_first(), b.drop_first(), c.drop_first());
    }
}

/// Of two distinct sequences, one is less than the other.
pub proof fn lemma_lex_total(a: Seq<char>, b: Seq<char>)
    requires
        a != b,
    ensures
        spec_lex_less(a, b) || spec_lex_less(b, a),
    decreases a.len(),
{
    if a.len() > 0 && b.len() > 0 && a[0] == b[0] {
        if a.drop_first() == b.drop_first() {
            assert(a =~= seq![a[0]] + a.drop_first());
            assert(b =~= seq![b[0]] + b.drop_first());
            assert(a =~= b);
        }
        lemma_lex_total(a.drop_first(), b.drop_first());
    } else if a.len() == 0 && b.len() == 0 {
        assert(a =~= b);
    }
}

/// Of two one-character sequences, the one with the smaller character
/// (by code point) sorts first.
pub proof fn lemma_lex_single(x: char, y: char)
    ensures
        spec_lex_less(seq![x], seq![y]) <==> x < y,
{
    if x == y {
        lemma_lex_irreflexive(seq![x]);
    } else {
        let e = Seq::<char>::empty();
        assert(e + seq![x] + e =~= seq![x]);
        assert(e + seq![y] + e =~= seq![y]);
        lemma_lex_first_difference(e, x, e, y, e);
    }
}

/// Two sequences that agree up to a point and then differ are ordered by
/// the first characters in which they differ, whatever follows.
pub proof fn lemma_lex_first_difference(
    p: Seq<char>,
    x: char,
    a: Seq<char>,
    y: char,
    b: Seq<char>,
)
    requires
        x != y,
    ensures
        spec_lex_less(p + seq![x] + a, p + seq![y] + b) <==> x < y,
    decreases p.len(),
{
    let l = p + seq![x] + a;
    let r = p + seq![y] + b;
    if p.len() == 0 {
        assert(l[0] == x);
        assert(r[0] == y);
    } else {
        assert(l[0] == p[0]);
        assert(r[0] == p[0]);
        assert(l.drop_first() =~= p.drop_first() + seq![x] + a);
        assert(r.drop_first() =~= p.drop_first() + seq![y] + b);
        lemma_lex_first_difference(p.drop_first(), x, a, y, b);
    }
}

/// A sequence sorts before every longer sequence that starts with it.
pub proof fn lemma_lex_proper_prefix(p: Seq<char>, a: Seq<char>)
    requires
        a.len() > 0,
    ensures
        spec_lex_less(p, p + a),
        !spec_lex_less(p + a, p),
    decreases p.len(),
{
    if p.len() > 0 {
        assert((p + a)[0] == p[0]);
        assert((p + a).drop_first() =~= p.drop_first() + a);
        lemma_lex_proper_prefix(p.drop_first(), a);
    }
}

/// Whether `a` sorts strictly before `b`.
pub fn lex_less(a: &Vec<char>, b: &Vec<char>) -> (r: bool)
    ensures
        r == spec_lex_less(a@, b@),
{
    let mut i: usize = 0;
    assert(a@.skip(0) =~= a@ && b@.skip(0) =~= b@);
    while i < a.len() && i < b.len() && a[i] == b[i]
        invariant
            0 <= i <= a.len(),
            i <= b.len(),
            a@.subrange(0, i as int) == b@.subrange(0, i as int),
            spec_lex_less(a@, b@) == spec_lex_less(a@.skip(i as int), b@.skip(i as int)),
        decreases a.len() - i,
    {
        assert(a@.skip(i as int).drop_first() =~= a@.skip(i + 1));
        assert(b@.skip(i as int).drop_first() =~= b@.skip(i + 1));
        assert(a@.subrange(0, i + 1) =~= a@.subrange(0, i as int).push(a[i as int]));
        assert(b@.subrange(0, i + 1) =~= b@.subrange(0, i as int).push(b[i as int]));
        i = i + 1;
    }
    if i == a.len() {
        i < b.len()
    } else if i == b.len() {
        false
    } else {
        a[i] < b[i]
    }
}

} // verus!
