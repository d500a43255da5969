//! The pattern language of the rules.
//!
//! A rule's pattern is a regular expression in which one part may be marked
//! with `<` and `>`. The pattern without the two brackets is what a file name
//! is matched against; the marked part alone is the template from which the
//! new file name is taken. A pattern without a marker is its own template.
//!
//! A marker is a `<`, then text that holds neither bracket, then a `>`. Where
//! brackets nest, the innermost pair is therefore the marker; where a pattern
//! holds several markers, the first one counts.

use vstd::prelude::*;
use crate::errors::Error;
use crate::text::{
    chars_of, lemma_without_brackets_id, slice_of, string_of, strip_brackets, without_brackets,
};

verus! {

/// The characters of `p` at `i` and `j` are a `<` and the `>` that closes it,
/// with no bracket between them.
pub open spec fn is_marker(p: Seq<char>, i: int, j: int) -> bool {
    &&& 0 <= i < j < p.len()
    &&& p[i] == '<'
    &&& p[j] == '>'
    &&& forall|k: int| i < k < j ==> p[k] != '<' && p[k] != '>'
}

/// `p` holds a marker.
pub open spec fn has_marker(p: Seq<char>) -> bool {
    exists|i: int, j: int| is_marker(p, i, j)
}

/// `(i, j)` is the marker of `p` that opens first.
pub open spec fn is_first_marker(p: Seq<char>, i: int, j: int) -> bool {
    &&& is_marker(p, i, j)
    &&& forall|i2: int, j2: int| is_marker(p, i2, j2) ==> i <= i2
}

/// The positions of the two brackets of the first marker of `p`.
pub open spec fn first_marker(p: Seq<char>) -> (int, int) {
    choose|m: (int, int)| is_first_marker(p, m.0, m.1)
}

/// The pattern that file names are matched against: `p` without its brackets.
pub open spec fn match_pattern(p: Seq<char>) -> Seq<char> {
    without_brackets(p)
}

/// The template for the new file name: what the first marker of `p` encloses,
/// or all of `p` where it holds no marker.
pub open spec fn extraction_template(p: Seq<char>) -> Seq<char> {
    if has_marker(p) {
        let m = first_marker(p);
        p.subrange(m.0 + 1, m.1)
    } else {
        p
    }
}

/// A pattern has one first marker at most.
pub proof fn lemma_first_marker_unique(p: Seq<char>, i: int, j: int)
    requires
        is_first_marker(p, i, j),
    ensures
        has_marker(p),
        first_marker(p) == (i, j),
{
    assert(is_marker(p, i, j));
    let m = first_marker(p);
    assert(is_first_marker(p, (i, j).0, (i, j).1));
    assert(is_first_marker(p, m.0, m.1));
    assert(m.0 == i);
    if m.1 < j {
        assert(p[m.1] == '>');
    }
    if j < m.1 {
        assert(p[j] == '>');
    }
}

/// A pattern without brackets is its own match pattern and its own template.
pub proof fn lemma_compile_plain(p: Seq<char>)
    requires
        forall|i: int| 0 <= i < p.len() ==> p[i] != '<' && p[i] != '>',
    ensures
        match_pattern(p) == p,
        extraction_template(p) == p,
{
    lemma_without_brackets_id(p);
    assert(!has_marker(p));
}

/// The template of a pattern with a marker is shorter than the pattern by at
/// least the two brackets, and holds no bracket itself.
pub proof fn lemma_template_inside(p: Seq<char>)
    requires
        has_marker(p),
    ensures
        extraction_template(p).len() + 2 <= p.len(),
        forall|k: int|
            0 <= k < extraction_template(p).len() ==> extraction_template(p)[k] != '<'
                && extraction_template(p)[k] != '>',
{
    let (i, j) = choose|i: int, j: int| is_marker(p, i, j);
    lemma_has_first_marker(p, i, j);
    let m = first_marker(p);
    assert(is_first_marker(p, m.0, m.1));
    let t = p.subrange(m.0 + 1, m.1);
    assert forall|k: int| 0 <= k < t.len() implies t[k] != '<' && t[k] != '>' by {
        assert(t[k] == p[m.0 + 1 + k]);
    }
}

/// Where there is a marker, there is a first one.
pub proof fn lemma_has_first_marker(p: Seq<char>, i: int, j: int)
    requires
        is_marker(p, i, j),
    ensures
        exists|a: int, b: int| is_first_marker(p, a, b),
        is_first_marker(p, first_marker(p).0, first_marker(p).1),
    decreases i,
{
    if exists|i2: int, j2: int| is_marker(p, i2, j2) && i2 < i {
        let (i2, j2) = choose|i2: int, j2: int| is_marker(p, i2, j2) && i2 < i;
        lemma_has_first_marker(p, i2, j2);
    } else {
        assert(is_first_marker(p, i, j));
    }
    let (a, b) = choose|a: int, b: int| is_first_marker(p, a, b);
    assert(is_first_marker(p, (a, b).0, (a, b).1));
}

/// Finds the first marker of a pattern.
pub fn find_marker(v: &Vec<char>) -> (r: Option<(usize, usize)>)
    ensures
        match r {
            Some((i, j)) => is_first_marker(v@, i as int, j as int),
            None => !has_marker(v@),
        },
{
    let mut open: Option<usize> = None;
    let mut pos: usize = 0;
    while pos < v.len()
        invariant
            pos <= v.len(),
            forall|i2: int, j2: int| is_marker(v@, i2, j2) ==> j2 >= pos,
            match open {
                Some(o) => o < pos && v@[o as int] == '<' && forall|k: int|
                    o < k < pos ==> v@[k] != '<' && v@[k] != '>',
                None => forall|k: int| 0 <= k < pos ==> v@[k] != '<',
            },
        decreases v.len() - pos,
    {
        let c = v[pos];
        if c == '<' {
            open = Some(pos);
        } else if c == '>' {
            match open {
                Some(o) => {
                    proof {
                        assert(is_marker(v@, o as int, pos as int));
                        assert forall|i2: int, j2: int| is_marker(v@, i2, j2) implies o
                            <= i2 by {
                            if i2 < o {
                                assert(j2 >= pos);
                                assert(v@[o as int] == '<');
                            }
                        }
                    }
                    return Some((o, pos));
                },
                None => {},
            }
        }
        pos += 1;
    }
    None
}

/// The pattern that file names are matched against: `pattern` without `<` and `>`.
pub fn clean_pattern(pattern: &str) -> (r: Result<String, Error>)
    ensures
        r is Ok,
        r->Ok_0@ == match_pattern(pattern@),
{
    let v = chars_of(pattern);
    let cleaned = strip_brackets(&v);
    Ok(string_of(&cleaned))
}

/// The template for the new file name: what the first marker of `pattern`
/// encloses, or the whole pattern where it holds no marker.
pub fn extract_pattern(pattern: &str) -> (r: Result<String, Error>)
    ensures
        r is Ok,
        r->Ok_0@ == extraction_template(pattern@),
{
    let v = chars_of(pattern);
    match find_marker(&v) {
        Some((i, j)) => {
            proof {
                lemma_first_marker_unique(v@, i as int, j as int);
            }
            let inner = slice_of(&v, i + 1, j);
            Ok(string_of(&inner))
        },
        None => Ok(string_of(&v)),
    }
}

/// Compiles a rule's pattern into the pattern to match and the template to extract.
pub fn compile(pattern: &str) -> (r: (String, String))
    ensures
        r.0@ == match_pattern(pattern@),
        r.1@ == extraction_template(pattern@),
{
    let v = chars_of(pattern);
    let cleaned = strip_brackets(&v);
    let template = match find_marker(&v) {
        Some((i, j)) => {
            proof {
                lemma_first_marker_unique(v@, i as int, j as int);
            }
            slice_of(&v, i + 1, j)
        },
        None => v,
    };
    (string_of(&cleaned), string_of(&template))
}

} // verus!
