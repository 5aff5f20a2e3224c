use vstd::prelude::*;
use vstd::std_specs::iter::IteratorSpec;

verus! {

broadcast use vstd::string::group_string_axioms;

/// Unicode `White_Space`, the set `char::is_whitespace` and `str::trim` use.
pub open spec fn is_white_space(c: char) -> bool {
    let u = c as u32;
    ||| 0x09 <= u <= 0x0d
    ||| u == 0x20
    ||| u == 0x85
    ||| u == 0xa0
    ||| u == 0x1680
    ||| 0x2000 <= u <= 0x200a
    ||| u == 0x2028
    ||| u == 0x2029
    ||| u == 0x202f
    ||| u == 0x205f
    ||| u == 0x3000
}

/// Unicode general category `Cc`, the set `char::is_control` uses.
pub open spec fn is_control(c: char) -> bool {
    let u = c as u32;
    u <= 0x1f || (0x7f <= u <= 0x9f)
}

/// `s` without its leading white space.
pub open spec fn trim_start(s: Seq<char>) -> Seq<char>
    decreases s.len(),
{
    if s.len() > 0 && is_white_space(s[0]) {
        trim_start(s.drop_first())
    } else {
        s
    }
}

/// `s` without its trailing white space.
pub open spec fn trim_end(s: Seq<char>) -> Seq<char>
    decreases s.len(),
{
    if s.len() > 0 && is_white_space(s.last()) {
        trim_end(s.drop_last())
    } else {
        s
    }
}

/// `s` without leading and trailing white space, as `str::trim` returns it.
pub open spec fn trim(s: Seq<char>) -> Seq<char> {
    trim_end(trim_start(s))
}

/// Whether `s` holds a control character.
pub open spec fn has_control(s: Seq<char>) -> bool {
    exists|i: int| 0 <= i < s.len() && is_control(#[trigger] s[i])
}

/// Whether every character of `s` is white space.
pub open spec fn all_white_space(s: Seq<char>) -> bool {
    forall|i: int| 0 <= i < s.len() ==> is_white_space(#[trigger] s[i])
}

pub fn char_is_white_space(c: char) -> (r: bool)
    ensures
        r == is_white_space(c),
{
    let u = c as u32;
    (0x09 <= u && u <= 0x0d) || u == 0x20 || u == 0x85 || u == 0xa0 || u == 0x1680 || (0x2000
        <= u && u <= 0x200a) || u == 0x2028 || u == 0x2029 || u == 0x202f || u == 0x205f || u
        == 0x3000
}

pub fn char_is_control(c: char) -> (r: bool)
    ensures
        r == is_control(c),
{
    let u = c as u32;
    u <= 0x1f || (0x7f <= u && u <= 0x9f)
}

/// The characters of `s`, in order.
pub fn chars_of(s: &str) -> (v: Vec<char>)
    ensures
        v@ == s@,
{
    let mut it = s.chars();
    let mut v: Vec<char> = Vec::new();
    loop
        invariant
            v@ + it.remaining() == s@,
            it.obeys_prophetic_iter_laws(),
            it.decrease() is Some,
        decreases it.decrease()->0,
    {
        let ghost before = it.remaining();
        match it.next() {
            Some(c) => {
                v.push(c);
                assert(v@ + it.remaining() =~= s@) by {
                    assert(before =~= seq![c] + it.remaining());
                }
            },
            None => {
                assert(v@ =~= s@);
                return v;
            },
        }
    }
}

/// A trimmed sequence starts and ends with a character that is not white
/// space, and trimming it again changes nothing.
pub proof fn lemma_trim_start_shape(s: Seq<char>)
    ensures
        trim_start(s).len() <= s.len(),
        trim_start(s) == s.subrange(s.len() - trim_start(s).len(), s.len() as int),
        all_white_space(s.subrange(0, s.len() - trim_start(s).len())),
        trim_start(s).len() > 0 ==> !is_white_space(trim_start(s)[0]),
    decreases s.len(),
{
    if s.len() > 0 && is_white_space(s[0]) {
        lemma_trim_start_shape(s.drop_first());
        let t = trim_start(s.drop_first());
        assert(s.drop_first().subrange(s.len() - 1 - t.len(), s.len() - 1) =~= s.subrange(
            s.len() - t.len(),
            s.len() as int,
        ));
        let p = s.subrange(0, s.len() - t.len());
        let q = s.drop_first().subrange(0, s.len() - 1 - t.len());
        assert forall|i: int| 0 <= i < p.len() implies is_white_space(#[trigger] p[i]) by {
            if i > 0 {
                assert(p[i] == q[i - 1]);
            }
        }
    } else {
        assert(s.subrange(0, s.len() as int) =~= s);
        assert(s.subrange(0, 0) =~= Seq::<char>::empty());
    }
}

pub proof fn lemma_trim_end_shape(s: Seq<char>)
    ensures
        trim_end(s).len() <= s.len(),
        trim_end(s) == s.subrange(0, trim_end(s).len() as int),
        all_white_space(s.subrange(trim_end(s).len() as int, s.len() as int)),
        trim_end(s).len() > 0 ==> !is_white_space(trim_end(s).last()),
    decreases s.len(),
{
    if s.len() > 0 && is_white_space(s.last()) {
        lemma_trim_end_shape(s.drop_last());
        let t = trim_end(s.drop_last());
        assert(s.drop_last().subrange(0, t.len() as int) =~= s.subrange(0, t.len() as int));
        let p = s.subrange(t.len() as int, s.len() as int);
        let q = s.drop_last().subrange(t.len() as int, s.len() - 1);
        assert forall|i: int| 0 <= i < p.len() implies is_white_space(#[trigger] p[i]) by {
            if i < p.len() - 1 {
                assert(p[i] == q[i]);
            }
        }
    } else {
        assert(s.subrange(0, s.len() as int) =~= s);
        assert(s.subrange(s.len() as int, s.len() as int) =~= Seq::<char>::empty());
    }
}

/// `trim_start` removes exactly the white-space characters before index `k`.
pub proof fn lemma_trim_start_at(s: Seq<char>, k: int)
    requires
        0 <= k <= s.len(),
        forall|i: int| 0 <= i < k ==> is_white_space(#[trigger] s[i]),
        k == s.len() || !is_white_space(s[k]),
    ensures
        trim_start(s) == s.subrange(k, s.len() as int),
    decreases k,
{
    if k == 0 {
        assert(s.subrange(0, s.len() as int) =~= s);
    } else {
        assert(s.len() > 0 && is_white_space(s[0]));
        let d = s.drop_first();
        assert forall|i: int| 0 <= i < k - 1 implies is_white_space(#[trigger] d[i]) by {
            assert(d[i] == s[i + 1]);
        }
        lemma_trim_start_at(d, k - 1);
        assert(d.subrange(k - 1, d.len() as int) =~= s.subrange(k, s.len() as int));
    }
}

/// `trim_end` removes exactly the white-space characters from index `k` on.
pub proof fn lemma_trim_end_at(s: Seq<char>, k: int)
    requires
        0 <= k <= s.len(),
        forall|i: int| k <= i < s.len() ==> is_white_space(#[trigger] s[i]),
        k == 0 || !is_white_space(s[k - 1]),
    ensures
        trim_end(s) == s.subrange(0, k),
    decreases s.len() - k,
{
    if k == s.len() {
        assert(s.subrange(0, s.len() as int) =~= s);
    } else {
        assert(s.len() > 0 && is_white_space(s.last()));
        let d = s.drop_last();
        assert forall|i: int| k <= i < d.len() implies is_white_space(#[trigger] d[i]) by {
            assert(d[i] == s[i]);
        }
        lemma_trim_end_at(d, k);
        assert(d.subrange(0, k) =~= s.subrange(0, k));
    }
}

/// Trimming is idempotent: a trimmed text has nothing more to trim.
pub proof fn lemma_trim_idempotent(s: Seq<char>)
    ensures
        trim(trim(s)) == trim(s),
{
    let a = trim_start(s);
    let t = trim_end(a);
    lemma_trim_start_shape(s);
    lemma_trim_end_shape(a);
    if t.len() > 0 {
        assert(t[0] == a[0]);
        assert(!is_white_space(t[0]));
        lemma_trim_start_at(t, 0);
        assert(t.subrange(0, t.len() as int) =~= t);
        lemma_trim_end_at(t, t.len() as int);
    } else {
        assert(trim_start(t) == t);
        assert(trim_end(t) == t);
    }
}

/// Returns the characters of `s` with leading and trailing white space
/// removed.
pub fn trim_chars(s: &Vec<char>) -> (r: Vec<char>)
    ensures
        r@ == trim(s@),
{
    let n = s.len();
    let mut start: usize = 0;
    while start < n && char_is_white_space(s[start])
        invariant
            n == s@.len(),
            start <= n,
            forall|i: int| 0 <= i < start ==> is_white_space(#[trigger] s@[i]),
        decreases n - start,
    {
        start = start + 1;
    }
    proof {
        lemma_trim_start_at(s@, start as int);
    }
    let ghost a = s@.subrange(start as int, n as int);
    let mut end: usize = n;
    while end > start && char_is_white_space(s[end - 1])
        invariant
            n == s@.len(),
            start <= end <= n,
            a == s@.subrange(start as int, n as int),
            forall|i: int| end <= i < n ==> is_white_space(#[trigger] s@[i]),
        decreases end - start,
    {
        end = end - 1;
    }
    proof {
        let k = end - start;
        assert forall|i: int| k <= i < a.len() implies is_white_space(#[trigger] a[i]) by {
            assert(a[i] == s@[i + start]);
        }
        if k > 0 {
            assert(a[k - 1] == s@[end - 1]);
        }
        lemma_trim_end_at(a, k as int);
    }
    let mut r: Vec<char> = Vec::new();
    let mut i = start;
    while i < end
        invariant
            n == s@.len(),
            start <= i <= end <= n,
            r@ == s@.subrange(start as int, i as int),
        decreases end - i,
    {
        r.push(s[i]);
        assert(r@ =~= s@.subrange(start as int, i + 1));
        i = i + 1;
    }
    assert(a.subrange(0, end - start) =~= s@.subrange(start as int, end as int));
    r
}

/// Whether `s` holds a control character.
pub fn contains_control(s: &Vec<char>) -> (r: bool)
    ensures
        r == has_control(s@),
{
    let mut i: usize = 0;
    while i < s.len()
        invariant
            i <= s@.len(),
            forall|k: int| 0 <= k < i ==> !is_control(#[trigger] s@[k]),
        decreases s.len() - i,
    {
        if char_is_control(s[i]) {
            assert(is_control(s@[i as int]));
            return true;
        }
        i = i + 1;
    }
    false
}

/// Whether every character of `s` is white space.
pub fn only_white_space(s: &Vec<char>) -> (r: bool)
    ensures
        r == all_white_space(s@),
{
    let mut i: usize = 0;
    while i < s.len()
        invariant
            i <= s@.len(),
            forall|k: int| 0 <= k < i ==> is_white_space(#[trigger] s@[k]),
        decreases s.len() - i,
    {
        if !char_is_white_space(s[i]) {
            return false;
        }
        i = i + 1;
    }
    true
}

/// A text is all white space exactly when trimming leaves nothing.
pub proof fn lemma_trim_empty_iff_white(s: Seq<char>)
    ensures
        (trim(s).len() == 0) == all_white_space(s),
{
    lemma_trim_start_shape(s);
    let a = trim_start(s);
    lemma_trim_end_shape(a);
    if all_white_space(s) {
        if a.len() > 0 {
            assert(a[0] == s[s.len() - a.len()]);
        }
    } else {
        let i = choose|i: int| 0 <= i < s.len() && !is_white_space(s[i]);
        if a.len() == 0 {
            assert(s.subrange(0, s.len() as int)[i] == s[i]);
        } else {
            assert(!is_white_space(trim_end(a).last()) || trim_end(a).len() == 0);
            if trim_end(a).len() == 0 {
                assert(a.subrange(0, a.len() as int)[0] == a[0]);
            }
        }
    }
}

/// Collects a character sequence into a string.
pub fn string_of(chars: &Vec<char>) -> (r: String)
    ensures
        r@ == chars@,
{
    let mut r = String::new();
    let mut i: usize = 0;
    while i < chars.len()
        invariant
            i <= chars@.len(),
            r@ == chars@.subrange(0, i as int),
        decreases chars.len() - i,
    {
        push_char(&mut r, chars[i]);
        assert(r@ =~= chars@.subrange(0, i + 1));
        i = i + 1;
    }
    assert(chars@.subrange(0, chars@.len() as int) =~= chars@);
    r
}

/// Appends one character to a string.
///
/// Trusted: calls `String::push`, which appends `c` to the characters of `s`.
#[verifier::external_body]
pub(crate) fn push_char(s: &mut String, c: char)
    ensures
        final(s)@ == old(s)@.push(c),
{
    s.push(c);
}

} // verus!

verus! {

/// Whether two string slices hold the same characters.
pub fn same_chars(a: &str, b: &str) -> (r: bool)
    ensures
        r == (a@ == b@),
{
    a.to_owned() == b.to_owned()
}

} // verus!
