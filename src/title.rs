//! The title sanitizer: the fixed pipeline that turns the raw text between the
//! title's boundaries into a display title.
use crate::text::{chars_of, is_white_space, string_of, white_space};
use vstd::prelude::*;

verus! {

/// Index of the first `c` in `s`, or `s.len()` when there is none.
pub open spec fn find_char(s: Seq<char>, c: char) -> int
    decreases s.len(),
{
    if s.len() == 0 {
        0
    } else {
        let k = find_char(s.drop_last(), c);
        if k < s.len() - 1 || s.last() == c {
            k
        } else {
            s.len() as int
        }
    }
}

/// Index of the first `"- "` in `s`, or `s.len()` when there is none.
pub open spec fn find_dash_space(s: Seq<char>) -> int
    decreases s.len(),
{
    if s.len() < 2 {
        s.len() as int
    } else {
        let k = find_dash_space(s.drop_last());
        if k < s.len() - 2 {
            k
        } else if s[s.len() - 2] == '-' && s[s.len() - 1] == ' ' {
            s.len() - 2
        } else {
            s.len() as int
        }
    }
}

/// Step 1: the text before the first `(`.
pub open spec fn before_paren(s: Seq<char>) -> Seq<char> {
    s.take(find_char(s, '('))
}

/// Step 2a: every leading `" -"` removed.
pub open spec fn strip_leading(s: Seq<char>) -> Seq<char>
    decreases s.len(),
{
    if s.len() >= 2 && s[0] == ' ' && s[1] == '-' {
        strip_leading(s.skip(2))
    } else {
        s
    }
}

/// Step 2b: every trailing `" -"` removed.
pub open spec fn strip_trailing(s: Seq<char>) -> Seq<char>
    decreases s.len(),
{
    if s.len() >= 2 && s[s.len() - 2] == ' ' && s[s.len() - 1] == '-' {
        strip_trailing(s.take(s.len() - 2))
    } else {
        s
    }
}

/// Every `a` replaced with `b`.
pub open spec fn replace_char(s: Seq<char>, a: char, b: char) -> Seq<char> {
    s.map_values(|x: char| if x == a { b } else { x })
}

/// Step 3: dots become spaces in a text that has dots and no space.
pub open spec fn dots_to_spaces(s: Seq<char>) -> Seq<char> {
    if !s.contains(' ') && s.contains('.') {
        replace_char(s, '.', ' ')
    } else {
        s
    }
}

/// Step 5a: the first `c` removed.
pub open spec fn without_first(s: Seq<char>, c: char) -> Seq<char> {
    let k = find_char(s, c);
    if k < s.len() {
        s.take(k) + s.skip(k + 1)
    } else {
        s
    }
}

/// Step 5b: the first `"- "` removed.
pub open spec fn without_dash_space(s: Seq<char>) -> Seq<char> {
    let k = find_dash_space(s);
    if k < s.len() {
        s.take(k) + s.skip(k + 2)
    } else {
        s
    }
}

/// Leading white space removed.
pub open spec fn trim_start(s: Seq<char>) -> Seq<char>
    decreases s.len(),
{
    if s.len() > 0 && white_space(s[0]) {
        trim_start(s.drop_first())
    } else {
        s
    }
}

/// Trailing white space removed.
pub open spec fn trim_end(s: Seq<char>) -> Seq<char>
    decreases s.len(),
{
    if s.len() > 0 && white_space(s.last()) {
        trim_end(s.drop_last())
    } else {
        s
    }
}

/// The display title of a raw title text: the six steps in their order.
pub open spec fn sanitize(s: Seq<char>) -> Seq<char> {
    let s1 = before_paren(s);
    let s2 = strip_trailing(strip_leading(s1));
    let s3 = dots_to_spaces(s2);
    let s4 = replace_char(s3, '_', ' ');
    let s5 = without_dash_space(without_first(s4, '('));
    trim_end(trim_start(s5))
}

proof fn lemma_find_char_bound(s: Seq<char>, c: char)
    ensures
        0 <= find_char(s, c) <= s.len(),
    decreases s.len(),
{
    if s.len() > 0 {
        lemma_find_char_bound(s.drop_last(), c);
    }
}

/// Whether `c` does not occur in `s`.
pub open spec fn lacks(s: Seq<char>, c: char) -> bool {
    forall|i: int| 0 <= i < s.len() ==> s[i] != c
}

/// Whether a sanitized title is left alone by the pipeline: it does not end
/// in `" -"`, holds no `"- "`, and has a space or no dot.
pub open spec fn settled(t: Seq<char>) -> bool {
    &&& !(t.len() >= 2 && t[t.len() - 2] == ' ' && t[t.len() - 1] == '-')
    &&& find_dash_space(t) == t.len()
    &&& (t.contains(' ') || !t.contains('.'))
}

proof fn lemma_find_char_skips(s: Seq<char>, c: char)
    ensures
        forall|j: int| 0 <= j < find_char(s, c) ==> s[j] != c,
        find_char(s, c) < s.len() ==> s[find_char(s, c)] == c,
    decreases s.len(),
{
    lemma_find_char_bound(s, c);
    if s.len() > 0 {
        let d = s.drop_last();
        lemma_find_char_skips(d, c);
        lemma_find_char_bound(d, c);
        assert forall|j: int| 0 <= j < find_char(s, c) implies s[j] != c by {
            if j < d.len() {
                assert(d[j] == s[j]);
            }
        }
    }
}

proof fn lemma_find_char_absent(s: Seq<char>, c: char)
    requires
        lacks(s, c),
    ensures
        find_char(s, c) == s.len(),
{
    lemma_find_char_skips(s, c);
    lemma_find_char_bound(s, c);
}

proof fn lemma_strip_leading_lacks(s: Seq<char>, c: char)
    requires
        lacks(s, c),
    ensures
        lacks(strip_leading(s), c),
    decreases s.len(),
{
    if s.len() >= 2 && s[0] == ' ' && s[1] == '-' {
        lemma_strip_leading_lacks(s.skip(2), c);
    }
}

proof fn lemma_strip_trailing_lacks(s: Seq<char>, c: char)
    requires
        lacks(s, c),
    ensures
        lacks(strip_trailing(s), c),
    decreases s.len(),
{
    if s.len() >= 2 && s[s.len() - 2] == ' ' && s[s.len() - 1] == '-' {
        lemma_strip_trailing_lacks(s.take(s.len() - 2), c);
    }
}

proof fn lemma_trim_start_shape(s: Seq<char>)
    ensures
        trim_start(s).len() <= s.len(),
        trim_start(s) == s.skip(s.len() - trim_start(s).len()),
        trim_start(s).len() > 0 ==> !white_space(trim_start(s)[0]),
    decreases s.len(),
{
    if s.len() > 0 && white_space(s[0]) {
        lemma_trim_start_shape(s.drop_first());
        assert(s.drop_first().skip(s.drop_first().len() - trim_start(s).len()) =~= s.skip(
            s.len() - trim_start(s).len(),
        ));
    } else {
        assert(s.skip(0) =~= s);
    }
}

proof fn lemma_trim_end_shape(s: Seq<char>)
    ensures
        trim_end(s).len() <= s.len(),
        trim_end(s) == s.take(trim_end(s).len() as int),
        trim_end(s).len() > 0 ==> !white_space(trim_end(s).last()),
    decreases s.len(),
{
    if s.len() > 0 && white_space(s.last()) {
        lemma_trim_end_shape(s.drop_last());
        assert(s.drop_last().take(trim_end(s).len() as int) =~= s.take(trim_end(s).len() as int));
    } else {
        assert(s.take(s.len() as int) =~= s);
    }
}

/// What every sanitized title has: no `(`, no `_`, and no white space at
/// either end.
proof fn lemma_sanitized_shape(s: Seq<char>)
    ensures
        lacks(sanitize(s), '('),
        lacks(sanitize(s), '_'),
        sanitize(s).len() > 0 ==> !white_space(sanitize(s)[0]) && !white_space(
            sanitize(s).last(),
        ),
{
    let s1 = before_paren(s);
    lemma_find_char_skips(s, '(');
    lemma_find_char_bound(s, '(');
    assert(lacks(s1, '('));
    let s2 = strip_trailing(strip_leading(s1));
    lemma_strip_leading_lacks(s1, '(');
    lemma_strip_trailing_lacks(strip_leading(s1), '(');
    let s3 = dots_to_spaces(s2);
    assert(lacks(s3, '('));
    let s4 = replace_char(s3, '_', ' ');
    assert(lacks(s4, '('));
    assert(lacks(s4, '_'));
    let s5a = without_first(s4, '(');
    lemma_find_char_absent(s4, '(');
    assert(s5a == s4);
    let s5 = without_dash_space(s5a);
    lemma_find_dash_space_bound(s5a);
    assert(lacks(s5, '(') && lacks(s5, '_')) by {
        let k = find_dash_space(s5a);
        if k < s5a.len() {
            assert forall|i: int| 0 <= i < s5.len() implies s5[i] != '(' && s5[i] != '_' by {
                if i < k {
                    assert(s5[i] == s5a[i]);
                } else {
                    assert(s5[i] == s5a[i + 2]);
                }
            }
        }
    }
    let t = trim_start(s5);
    lemma_trim_start_shape(s5);
    assert(lacks(t, '(') && lacks(t, '_')) by {
        assert forall|i: int| 0 <= i < t.len() implies t[i] != '(' && t[i] != '_' by {
            assert(t[i] == s5[s5.len() - t.len() + i]);
        }
    }
    lemma_trim_end_shape(t);
    let r = trim_end(t);
    assert(lacks(r, '(') && lacks(r, '_')) by {
        assert forall|i: int| 0 <= i < r.len() implies r[i] != '(' && r[i] != '_' by {
            assert(r[i] == t[i]);
        }
    }
    if r.len() > 0 {
        assert(r[0] == t[0]);
    }
}

/// Sanitizing a sanitized title changes nothing, whenever that title is
/// settled (it does not end in `" -"`, holds no `"- "`, and has a space or no
/// dot).
pub proof fn lemma_sanitize_idempotent(s: Seq<char>)
    requires
        settled(sanitize(s)),
    ensures
        sanitize(sanitize(s)) == sanitize(s),
{
    let y = sanitize(s);
    lemma_sanitized_shape(s);
    lemma_find_char_absent(y, '(');
    assert(before_paren(y) =~= y);
    if y.len() >= 2 {
        assert(white_space(' '));
        assert(y[0] != ' ');
    }
    assert(strip_leading(y) == y);
    assert(strip_trailing(y) == y);
    assert(dots_to_spaces(y) == y);
    assert(replace_char(y, '_', ' ') =~= y);
    assert(without_first(y, '(') == y);
    assert(without_dash_space(y) == y);
    assert(trim_start(y) == y);
    assert(trim_end(y) == y);
}

proof fn lemma_strip_trailing_shorter(s: Seq<char>)
    ensures
        strip_trailing(s).len() <= s.len(),
        s.len() >= 2 && s[s.len() - 2] == ' ' && s[s.len() - 1] == '-' ==> strip_trailing(s).len()
            < s.len(),
    decreases s.len(),
{
    if s.len() >= 2 && s[s.len() - 2] == ' ' && s[s.len() - 1] == '-' {
        lemma_strip_trailing_shorter(s.take(s.len() - 2));
    }
}

/// The last three steps (first `(` and `"- "` removed, white space trimmed)
/// never lengthen a text, and never bring back a character it lacks.
proof fn lemma_tail_steps(s: Seq<char>, c: char)
    ensures
        trim_end(trim_start(without_dash_space(without_first(s, '(')))).len() <= without_dash_space(
            without_first(s, '('),
        ).len(),
        without_dash_space(without_first(s, '(')).len() <= without_first(s, '(').len() <= s.len(),
        find_dash_space(without_first(s, '(')) < without_first(s, '(').len() ==> without_dash_space(
            without_first(s, '('),
        ).len() < without_first(s, '(').len(),
        lacks(s, c) ==> lacks(trim_end(trim_start(without_dash_space(without_first(s, '(')))), c),
{
    let a = without_first(s, '(');
    lemma_find_char_bound(s, '(');
    assert(lacks(s, c) ==> lacks(a, c)) by {
        let k = find_char(s, '(');
        if lacks(s, c) && k < s.len() {
            assert forall|i: int| 0 <= i < a.len() implies a[i] != c by {
                if i < k {
                    assert(a[i] == s[i]);
                } else {
                    assert(a[i] == s[i + 1]);
                }
            }
        }
    }
    let b = without_dash_space(a);
    lemma_find_dash_space_bound(a);
    assert(lacks(a, c) ==> lacks(b, c)) by {
        let k = find_dash_space(a);
        if lacks(a, c) && k < a.len() {
            assert forall|i: int| 0 <= i < b.len() implies b[i] != c by {
                if i < k {
                    assert(b[i] == a[i]);
                } else {
                    assert(b[i] == a[i + 2]);
                }
            }
        }
    }
    let t = trim_start(b);
    lemma_trim_start_shape(b);
    assert(lacks(b, c) ==> lacks(t, c)) by {
        if lacks(b, c) {
            assert forall|i: int| 0 <= i < t.len() implies t[i] != c by {
                assert(t[i] == b[b.len() - t.len() + i]);
            }
        }
    }
    lemma_trim_end_shape(t);
    let r = trim_end(t);
    assert(lacks(t, c) ==> lacks(r, c)) by {
        if lacks(t, c) {
            assert forall|i: int| 0 <= i < r.len() implies r[i] != c by {
                assert(r[i] == t[i]);
            }
        }
    }
}

/// A sanitized title that is not settled is changed by a second pass: the
/// settled ones are exactly those that sanitizing leaves alone.
pub proof fn lemma_unsettled_changes(s: Seq<char>)
    requires
        !settled(sanitize(s)),
    ensures
        sanitize(sanitize(s)) != sanitize(s),
{
    let y = sanitize(s);
    lemma_sanitized_shape(s);
    lemma_find_char_absent(y, '(');
    assert(before_paren(y) =~= y);
    if y.len() >= 2 {
        assert(white_space(' '));
        assert(y[0] != ' ');
    }
    assert(strip_leading(y) == y);
    let s2 = strip_trailing(y);
    lemma_strip_trailing_shorter(y);
    let s3 = dots_to_spaces(s2);
    let s4 = replace_char(s3, '_', ' ');
    lemma_tail_steps(s4, '.');
    if y.len() >= 2 && y[y.len() - 2] == ' ' && y[y.len() - 1] == '-' {
        assert(sanitize(y).len() < y.len());
    } else if !(y.contains(' ') || !y.contains('.')) {
        assert(s2 == y);
        assert(lacks(s3, '.'));
        assert(lacks(s4, '.'));
        assert(lacks(sanitize(y), '.'));
        let i = choose|i: int| 0 <= i < y.len() && y[i] == '.';
        assert(y[i] == '.');
    } else {
        assert(s2 == y);
        assert(s3 == y);
        assert(s4 =~= y);
        lemma_find_char_absent(y, '(');
        assert(without_first(s4, '(') == y);
        assert(sanitize(y).len() < y.len());
    }
}

fn position_of(v: &Vec<char>, c: char) -> (r: usize)
    ensures
        r == find_char(v@, c),
        r <= v.len(),
{
    let mut k: usize = 0;
    let mut i: usize = 0;
    while i < v.len()
        invariant
            i <= v.len(),
            k == find_char(v@.take(i as int), c),
            k <= i,
        decreases v.len() - i,
    {
        assert(v@.take(i + 1).drop_last() =~= v@.take(i as int));
        if k == i && v[i] != c {
            k = i + 1;
        }
        i = i + 1;
    }
    assert(v@.take(v.len() as int) =~= v@);
    proof {
        lemma_find_char_bound(v@, c);
    }
    k
}

fn position_of_dash_space(v: &Vec<char>) -> (r: usize)
    ensures
        r == find_dash_space(v@),
{
    let n = v.len();
    if n < 2 {
        return n;
    }
    let mut k: usize = 1;
    let mut i: usize = 1;
    assert(v@.take(1).len() == 1);
    while i < n
        invariant
            1 <= i <= n == v.len(),
            k == find_dash_space(v@.take(i as int)),
            k <= i,
        decreases n - i,
    {
        let ghost t = v@.take(i + 1);
        assert(t.drop_last() =~= v@.take(i as int));
        assert(t[i - 1] == v@[i - 1] && t[i as int] == v@[i as int]);
        if k == i {
            if v[i - 1] == '-' && v[i] == ' ' {
                k = i - 1;
            } else {
                k = i + 1;
            }
        }
        i = i + 1;
    }
    assert(v@.take(n as int) =~= v@);
    k
}

/// The characters `lo..hi` of `v`, followed by those from `from` on.
fn splice(v: &Vec<char>, lo: usize, hi: usize, from: usize) -> (r: Vec<char>)
    requires
        lo <= hi <= v.len(),
        from <= v.len(),
    ensures
        r@ == v@.subrange(lo as int, hi as int) + v@.skip(from as int),
{
    let mut out: Vec<char> = Vec::new();
    let mut i: usize = lo;
    while i < hi
        invariant
            lo <= i <= hi <= v.len(),
            out@ == v@.subrange(lo as int, i as int),
        decreases hi - i,
    {
        out.push(v[i]);
        i = i + 1;
        assert(out@ =~= v@.subrange(lo as int, i as int));
    }
    let mut j: usize = from;
    while j < v.len()
        invariant
            from <= j <= v.len(),
            hi <= v.len(),
            out@ == v@.subrange(lo as int, hi as int) + v@.subrange(from as int, j as int),
        decreases v.len() - j,
    {
        out.push(v[j]);
        j = j + 1;
        assert(out@ =~= v@.subrange(lo as int, hi as int) + v@.subrange(from as int, j as int));
    }
    assert(v@.subrange(from as int, v.len() as int) =~= v@.skip(from as int));
    out
}

fn cut_before_paren(v: &Vec<char>) -> (r: Vec<char>)
    ensures
        r@ == before_paren(v@),
{
    let k = position_of(v, '(');
    let r = splice(v, 0, k, v.len());
    assert(r@ =~= before_paren(v@));
    r
}

fn strip_dashes(v: &Vec<char>) -> (r: Vec<char>)
    ensures
        r@ == strip_trailing(strip_leading(v@)),
{
    let mut i: usize = 0;
    assert(v@.skip(0) =~= v@);
    while v.len() - i >= 2 && v[i] == ' ' && v[i + 1] == '-'
        invariant
            i <= v.len(),
            strip_leading(v@.skip(i as int)) == strip_leading(v@),
        decreases v.len() - i,
    {
        assert(v@.skip(i as int).skip(2) =~= v@.skip(i + 2));
        i = i + 2;
    }
    assert(strip_leading(v@.skip(i as int)) == v@.skip(i as int));
    let ghost lead = v@.skip(i as int);
    let mut j: usize = v.len();
    while j - i >= 2 && v[j - 2] == ' ' && v[j - 1] == '-'
        invariant
            i <= j <= v.len(),
            lead == v@.skip(i as int),
            strip_trailing(v@.subrange(i as int, j as int)) == strip_trailing(lead),
        decreases j,
    {
        assert(v@.subrange(i as int, j as int).take(j - 2 - i) =~= v@.subrange(i as int, j - 2));
        j = j - 2;
    }
    assert(v@.subrange(i as int, v.len() as int) =~= lead);
    splice(v, i, j, v.len())
}

fn contains_char(v: &Vec<char>, c: char) -> (r: bool)
    ensures
        r == v@.contains(c),
{
    let mut i: usize = 0;
    while i < v.len()
        invariant
            i <= v.len(),
            forall|j: int| 0 <= j < i ==> v@[j] != c,
        decreases v.len() - i,
    {
        if v[i] == c {
            return true;
        }
        i = i + 1;
    }
    false
}

fn replace_all(v: &Vec<char>, a: char, b: char) -> (r: Vec<char>)
    ensures
        r@ == replace_char(v@, a, b),
{
    let mut out: Vec<char> = Vec::new();
    let mut i: usize = 0;
    while i < v.len()
        invariant
            i <= v.len(),
            out@ == replace_char(v@.take(i as int), a, b),
        decreases v.len() - i,
    {
        let c = if v[i] == a {
            b
        } else {
            v[i]
        };
        out.push(c);
        i = i + 1;
        assert(out@ =~= replace_char(v@.take(i as int), a, b));
    }
    assert(v@.take(v.len() as int) =~= v@);
    out
}

fn spaces_for_dots(v: &Vec<char>) -> (r: Vec<char>)
    ensures
        r@ == dots_to_spaces(v@),
{
    if !contains_char(v, ' ') && contains_char(v, '.') {
        replace_all(v, '.', ' ')
    } else {
        splice(v, 0, 0, 0)
    }
}

fn drop_first_paren(v: &Vec<char>) -> (r: Vec<char>)
    ensures
        r@ == without_first(v@, '('),
{
    let k = position_of(v, '(');
    if k < v.len() {
        splice(v, 0, k, k + 1)
    } else {
        splice(v, 0, 0, 0)
    }
}

fn drop_first_dash_space(v: &Vec<char>) -> (r: Vec<char>)
    ensures
        r@ == without_dash_space(v@),
{
    let k = position_of_dash_space(v);
    if k < v.len() {
        proof {
            lemma_find_dash_space_bound(v@);
        }
        splice(v, 0, k, k + 2)
    } else {
        splice(v, 0, 0, 0)
    }
}

proof fn lemma_find_dash_space_bound(s: Seq<char>)
    ensures
        find_dash_space(s) == s.len() || find_dash_space(s) + 2 <= s.len(),
        0 <= find_dash_space(s),
    decreases s.len(),
{
    if s.len() >= 2 {
        lemma_find_dash_space_bound(s.drop_last());
    }
}

fn trim_white(v: &Vec<char>) -> (r: Vec<char>)
    ensures
        r@ == trim_end(trim_start(v@)),
{
    let mut i: usize = 0;
    assert(v@.skip(0) =~= v@);
    while i < v.len() && is_white_space(v[i])
        invariant
            i <= v.len(),
            trim_start(v@.skip(i as int)) == trim_start(v@),
        decreases v.len() - i,
    {
        assert(v@.skip(i as int).drop_first() =~= v@.skip(i + 1));
        i = i + 1;
    }
    let ghost lead = v@.skip(i as int);
    let mut j: usize = v.len();
    while j > i && is_white_space(v[j - 1])
        invariant
            i <= j <= v.len(),
            lead == v@.skip(i as int),
            trim_end(v@.subrange(i as int, j as int)) == trim_end(lead),
        decreases j,
    {
        assert(v@.subrange(i as int, j as int).drop_last() =~= v@.subrange(i as int, j - 1));
        j = j - 1;
    }
    assert(v@.subrange(i as int, v.len() as int) =~= lead);
    splice(v, i, j, v.len())
}

/// The display title of a raw title text.
pub fn sanitize_title(raw: &str) -> (r: String)
    ensures
        r@ == sanitize(raw@),
{
    let v = chars_of(raw);
    let v = cut_before_paren(&v);
    let v = strip_dashes(&v);
    let v = spaces_for_dots(&v);
    let v = replace_all(&v, '_', ' ');
    let v = drop_first_paren(&v);
    let v = drop_first_dash_space(&v);
    let v = trim_white(&v);
    string_of(&v)
}

} // verus!
