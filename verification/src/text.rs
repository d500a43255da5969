//! Text as sequences of characters: searching, comparing, splitting.
//!
//! Every public type of this crate keeps its text in `String`s; the contracts
//! speak of their views, which are `Seq<char>`. The functions here do the
//! character-level work on `Vec<char>` and state exactly what they return.

use vstd::prelude::*;

verus! {

/// `pat` occurs in `text` starting at position `i`.
pub open spec fn occurs_at(text: Seq<char>, pat: Seq<char>, i: int) -> bool {
    &&& 0 <= i
    &&& i + pat.len() <= text.len()
    &&& text.subrange(i, i + pat.len()) == pat
}

/// `pat` occurs somewhere in `text`.
pub open spec fn contains_sub(text: Seq<char>, pat: Seq<char>) -> bool {
    exists|i: int| occurs_at(text, pat, i)
}

/// `text` begins with `pat`.
pub open spec fn starts_with_sub(text: Seq<char>, pat: Seq<char>) -> bool {
    occurs_at(text, pat, 0)
}

/// `text` ends with `pat`.
pub open spec fn ends_with_sub(text: Seq<char>, pat: Seq<char>) -> bool {
    occurs_at(text, pat, text.len() - pat.len())
}

/// The position of the first occurrence of `pat` in `text` at or after `from`.
pub open spec fn find_sub(text: Seq<char>, pat: Seq<char>, from: int) -> Option<int>
    decreases text.len() - pat.len() - from + 1,
{
    if from < 0 || from + pat.len() > text.len() {
        None
    } else if occurs_at(text, pat, from) {
        Some(from)
    } else {
        find_sub(text, pat, from + 1)
    }
}

/// `a` comes before `b`, or equals it, in the order of a dictionary:
/// the first differing character decides, and a prefix comes first.
pub open spec fn lex_le(a: Seq<char>, b: Seq<char>) -> bool
    decreases a.len(),
{
    if a.len() == 0 {
        true
    } else if b.len() == 0 {
        false
    } else if a[0] != b[0] {
        a[0] < b[0]
    } else {
        lex_le(a.skip(1), b.skip(1))
    }
}

/// `text` without the characters `<` and `>`.
pub open spec fn without_brackets(text: Seq<char>) -> Seq<char> {
    text.filter(|c: char| c != '<' && c != '>')
}

/// What `find_sub` returns is an occurrence, and the first one from `from` on.
pub proof fn lemma_find_sub_first(text: Seq<char>, pat: Seq<char>, from: int)
    requires
        0 <= from,
    ensures
        match find_sub(text, pat, from) {
            Some(i) => from <= i && occurs_at(text, pat, i) && forall|j: int|
                from <= j < i ==> !occurs_at(text, pat, j),
            None => forall|j: int| from <= j ==> !occurs_at(text, pat, j),
        },
    decreases text.len() - pat.len() - from + 1,
{
    if from + pat.len() > text.len() {
    } else if occurs_at(text, pat, from) {
    } else {
        lemma_find_sub_first(text, pat, from + 1);
    }
}

/// A text contains `pat` exactly when a search from its start finds it.
pub proof fn lemma_contains_iff_found(text: Seq<char>, pat: Seq<char>)
    ensures
        contains_sub(text, pat) <==> find_sub(text, pat, 0) is Some,
{
    lemma_find_sub_first(text, pat, 0);
    if contains_sub(text, pat) {
        let i = choose|i: int| occurs_at(text, pat, i);
        assert(occurs_at(text, pat, i));
    }
}

/// The dictionary order is reflexive.
pub proof fn lemma_lex_le_refl(a: Seq<char>)
    ensures
        lex_le(a, a),
    decreases a.len(),
{
    if a.len() > 0 {
        lemma_lex_le_refl(a.skip(1));
    }
}

/// The dictionary order is total: of two texts one comes first.
pub proof fn lemma_lex_le_total(a: Seq<char>, b: Seq<char>)
    ensures
        lex_le(a, b) || lex_le(b, a),
    decreases a.len(),
{
    if a.len() > 0 && b.len() > 0 && a[0] == b[0] {
        lemma_lex_le_total(a.skip(1), b.skip(1));
    }
}

/// The dictionary order is transitive.
pub proof fn lemma_lex_le_trans(a: Seq<char>, b: Seq<char>, c: Seq<char>)
    requires
        lex_le(a, b),
        lex_le(b, c),
    ensures
        lex_le(a, c),
    decreases a.len(),
{
    if a.len() > 0 && b.len() > 0 && c.len() > 0 && a[0] == b[0] && b[0] == c[0] {
        lemma_lex_le_trans(a.skip(1), b.skip(1), c.skip(1));
    }
}

/// Two texts that each come before the other are the same text.
pub proof fn lemma_lex_le_antisym(a: Seq<char>, b: Seq<char>)
    requires
        lex_le(a, b),
        lex_le(b, a),
    ensures
        a == b,
    decreases a.len(),
{
    if a.len() > 0 && b.len() > 0 {
        lemma_lex_le_antisym(a.skip(1), b.skip(1));
        assert(a =~= seq![a[0]] + a.skip(1));
        assert(b =~= seq![b[0]] + b.skip(1));
    } else {
        assert(a =~= b);
    }
}

/// Collects the characters of `s` into a vector.
pub fn chars_of(s: &str) -> (v: Vec<char>)
    ensures
        v@ == s@,
{
    let mut v: Vec<char> = Vec::new();
    for c in it: s.chars()
        invariant
            it.seq() == s@,
            v@ == s@.take(it.index()),
    {
        v.push(c);
    }
    assert(s@.take(s@.len() as int) == s@);
    v
}

/// Builds a string from a vector of characters, through `String::from_iter`
/// of the standard library: the string holds exactly the given characters,
/// in their order.
#[verifier::external_body]
pub(crate) fn string_of(v: &Vec<char>) -> (s: String)
    ensures
        s@ == v@,
{
    String::from_iter(v.iter())
}

/// A copy of the characters of `v` from `from` up to, not including, `to`.
pub fn slice_of(v: &Vec<char>, from: usize, to: usize) -> (r: Vec<char>)
    requires
        from <= to <= v.len(),
    ensures
        r@ == v@.subrange(from as int, to as int),
{
    let mut r: Vec<char> = Vec::new();
    let mut i: usize = from;
    while i < to
        invariant
            from <= i <= to <= v.len(),
            r@ == v@.subrange(from as int, i as int),
        decreases to - i,
    {
        r.push(v[i]);
        i += 1;
        assert(r@ =~= v@.subrange(from as int, i as int));
    }
    r
}

/// Appends the characters of `tail` to `out`.
pub fn append_chars(out: &mut Vec<char>, tail: &Vec<char>)
    ensures
        final(out)@ == old(out)@ + tail@,
{
    let mut i: usize = 0;
    while i < tail.len()
        invariant
            i <= tail.len(),
            out@ == old(out)@ + tail@.take(i as int),
        decreases tail.len() - i,
    {
        out.push(tail[i]);
        i += 1;
        assert(out@ =~= old(out)@ + tail@.take(i as int));
    }
    assert(tail@.take(tail.len() as int) == tail@);
}

/// Whether `pat` occurs in `text` at position `i`.
pub fn matches_at(text: &Vec<char>, pat: &Vec<char>, i: usize) -> (r: bool)
    ensures
        r == occurs_at(text@, pat@, i as int),
{
    if pat.len() > text.len() || i > text.len() - pat.len() {
        return false;
    }
    let mut k: usize = 0;
    while k < pat.len()
        invariant
            k <= pat.len(),
            i + pat.len() <= text.len(),
            forall|j: int| 0 <= j < k ==> text@[i + j] == pat@[j],
        decreases pat.len() - k,
    {
        if text[i + k] != pat[k] {
            proof {
                let sub = text@.subrange(i as int, i + pat.len());
                assert(sub[k as int] == text@[i + k]);
            }
            return false;
        }
        k += 1;
    }
    assert(text@.subrange(i as int, i + pat.len()) =~= pat@);
    true
}

/// The first position at or after `from` where `pat` occurs in `text`.
pub fn find_from(text: &Vec<char>, pat: &Vec<char>, from: usize) -> (r: Option<usize>)
    ensures
        match r {
            Some(i) => find_sub(text@, pat@, from as int) == Some(i as int),
            None => find_sub(text@, pat@, from as int) is None,
        },
{
    if pat.len() > text.len() || from > text.len() - pat.len() {
        return None;
    }
    let last: usize = text.len() - pat.len();
    let mut i: usize = from;
    loop
        invariant
            from <= i <= last,
            last == text.len() - pat.len(),
            find_sub(text@, pat@, from as int) == find_sub(text@, pat@, i as int),
        decreases last - i,
    {
        if matches_at(text, pat, i) {
            return Some(i);
        }
        if i == last {
            assert(find_sub(text@, pat@, i + 1) is None);
            return None;
        }
        i += 1;
    }
}

/// Whether `pat` occurs in `text`.
pub fn contains(text: &Vec<char>, pat: &Vec<char>) -> (r: bool)
    ensures
        r == contains_sub(text@, pat@),
{
    proof {
        lemma_contains_iff_found(text@, pat@);
    }
    find_from(text, pat, 0).is_some()
}

/// Whether `text` begins with `pat`.
pub fn starts_with(text: &Vec<char>, pat: &Vec<char>) -> (r: bool)
    ensures
        r == starts_with_sub(text@, pat@),
{
    matches_at(text, pat, 0)
}

/// Whether `text` ends with `pat`.
pub fn ends_with(text: &Vec<char>, pat: &Vec<char>) -> (r: bool)
    ensures
        r == ends_with_sub(text@, pat@),
{
    if pat.len() > text.len() {
        return false;
    }
    matches_at(text, pat, text.len() - pat.len())
}

/// Whether two texts hold the same characters.
pub fn same_chars(a: &Vec<char>, b: &Vec<char>) -> (r: bool)
    ensures
        r == (a@ == b@),
{
    if a.len() != b.len() {
        return false;
    }
    let r = matches_at(a, b, 0);
    proof {
        assert(a@.subrange(0, a@.len() as int) =~= a@);
    }
    r
}

/// Whether `a` comes before `b`, or equals it, in the order of a dictionary.
pub fn lex_le_chars(a: &Vec<char>, b: &Vec<char>) -> (r: bool)
    ensures
        r == lex_le(a@, b@),
{
    let mut i: usize = 0;
    proof {
        assert(a@.skip(0) =~= a@);
        assert(b@.skip(0) =~= b@);
    }
    while i < a.len() && i < b.len()
        invariant
            i <= a.len(),
            i <= b.len(),
            lex_le(a@, b@) == lex_le(a@.skip(i as int), b@.skip(i as int)),
        decreases a.len() - i,
    {
        let x = a[i];
        let y = b[i];
        proof {
            let sa = a@.skip(i as int);
            let sb = b@.skip(i as int);
            assert(sa[0] == x && sb[0] == y);
            assert(sa.skip(1) =~= a@.skip(i + 1));
            assert(sb.skip(1) =~= b@.skip(i + 1));
        }
        if x != y {
            return x < y;
        }
        i += 1;
    }
    i == a.len()
}

/// `text` with every `<` and `>` taken out.
pub fn strip_brackets(text: &Vec<char>) -> (r: Vec<char>)
    ensures
        r@ == without_brackets(text@),
{
    let mut r: Vec<char> = Vec::new();
    let ghost keep = |c: char| c != '<' && c != '>';
    let mut i: usize = 0;
    proof {
        assert(text@.take(0) =~= Seq::<char>::empty());
    }
    while i < text.len()
        invariant
            i <= text.len(),
            keep == (|c: char| c != '<' && c != '>'),
            r@ == text@.take(i as int).filter(keep),
        decreases text.len() - i,
    {
        let c = text[i];
        proof {
            let prev = text@.take(i as int);
            let next = text@.take(i + 1);
            assert(next =~= prev.push(c));
            assert(next.drop_last() =~= prev);
            reveal(Seq::filter);
        }
        if c != '<' && c != '>' {
            r.push(c);
        }
        i += 1;
    }
    assert(text@.take(text.len() as int) == text@);
    r
}

/// Whether `c` is white space: whether it is one of the characters with
/// the Unicode property `White_Space`, which are tab to carriage return, the
/// space, the next-line character, the no-break space, the ogham space mark,
/// the spaces from en quad to hair space, the line and the paragraph
/// separator, the narrow no-break space, the medium mathematical space and
/// the ideographic space.
pub open spec fn is_whitespace(c: char) -> bool {
    c == '\u{9}'
        || c == '\u{a}'
        || c == '\u{b}'
        || c == '\u{c}'
        || c == '\u{d}'
        || c == '\u{20}'
        || c == '\u{85}'
        || c == '\u{a0}'
        || c == '\u{1680}'
        || c == '\u{2000}'
        || c == '\u{2001}'
        || c == '\u{2002}'
        || c == '\u{2003}'
        || c == '\u{2004}'
        || c == '\u{2005}'
        || c == '\u{2006}'
        || c == '\u{2007}'
        || c == '\u{2008}'
        || c == '\u{2009}'
        || c == '\u{200a}'
        || c == '\u{2028}'
        || c == '\u{2029}'
        || c == '\u{202f}'
        || c == '\u{205f}'
        || c == '\u{3000}'
}

/// Whether `c` is white space.
pub fn char_is_whitespace(c: char) -> (r: bool)
    ensures
        r == is_whitespace(c),
{
    c == '\u{9}'
        || c == '\u{a}'
        || c == '\u{b}'
        || c == '\u{c}'
        || c == '\u{d}'
        || c == '\u{20}'
        || c == '\u{85}'
        || c == '\u{a0}'
        || c == '\u{1680}'
        || c == '\u{2000}'
        || c == '\u{2001}'
        || c == '\u{2002}'
        || c == '\u{2003}'
        || c == '\u{2004}'
        || c == '\u{2005}'
        || c == '\u{2006}'
        || c == '\u{2007}'
        || c == '\u{2008}'
        || c == '\u{2009}'
        || c == '\u{200a}'
        || c == '\u{2028}'
        || c == '\u{2029}'
        || c == '\u{202f}'
        || c == '\u{205f}'
        || c == '\u{3000}'
}

/// `text` holds nothing but white space.
pub open spec fn is_blank(text: Seq<char>) -> bool {
    forall|i: int| 0 <= i < text.len() ==> is_whitespace(#[trigger] text[i])
}

/// Whether `text` holds nothing but white space.
pub fn blank(text: &str) -> (r: bool)
    ensures
        r == is_blank(text@),
{
    let v = chars_of(text);
    let mut i: usize = 0;
    while i < v.len()
        invariant
            i <= v.len(),
            v@ == text@,
            forall|k: int| 0 <= k < i ==> is_whitespace(#[trigger] v@[k]),
        decreases v.len() - i,
    {
        if !char_is_whitespace(v[i]) {
            return false;
        }
        i += 1;
    }
    true
}

/// A text without `<` and `>` is unchanged by taking them out.
pub proof fn lemma_without_brackets_id(text: Seq<char>)
    requires
        forall|i: int| 0 <= i < text.len() ==> text[i] != '<' && text[i] != '>',
    ensures
        without_brackets(text) == text,
    decreases text.len(),
{
    reveal(Seq::filter);
    if text.len() > 0 {
        lemma_without_brackets_id(text.drop_last());
        assert(text =~= text.drop_last().push(text.last()));
    }
}

} // verus!
