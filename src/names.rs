//! Normalisation of visitor names: surrounding white space removed, then
//! lower-cased.

use vstd::prelude::*;

verus! {

/// Whether `c` has the Unicode `White_Space` property, as `char::is_whitespace`
/// decides it.
pub uninterp spec fn white_space(c: char) -> bool;

/// The Unicode lower-case mapping of a whole string, as `str::to_lowercase`
/// computes it.
pub uninterp spec fn lower_of(s: Seq<char>) -> Seq<char>;

/// `s` without its leading white space.
pub open spec fn strip_front(s: Seq<char>) -> Seq<char>
    decreases s.len(),
{
    if s.len() > 0 && white_space(s[0]) {
        strip_front(s.drop_first())
    } else {
        s
    }
}

/// `s` without its trailing white space.
pub open spec fn strip_back(s: Seq<char>) -> Seq<char>
    decreases s.len(),
{
    if s.len() > 0 && white_space(s.last()) {
        strip_back(s.drop_last())
    } else {
        s
    }
}

/// `s` without leading or trailing white space.
pub open spec fn trimmed(s: Seq<char>) -> Seq<char> {
    strip_back(strip_front(s))
}

/// The normal form of a name: trimmed, then lower-cased.
pub open spec fn normalized(s: Seq<char>) -> Seq<char> {
    lower_of(trimmed(s))
}

/// Relies on `str::trim`: the sub-slice left once leading and trailing
/// characters with the `White_Space` property are removed.
#[verifier::external_body]
fn trim_str(s: &str) -> (r: &str)
    ensures
        r@ == trimmed(s@),
        r@.len() > 0 ==> !white_space(r@[0]) && !white_space(r@.last()),
{
    s.trim()
}

/// Relies on `str::to_lowercase`: the result depends on the characters alone,
/// and an empty string stays empty.
#[verifier::external_body]
fn lowercase(s: &str) -> (r: String)
    ensures
        r@ == lower_of(s@),
        s@.len() == 0 ==> r@.len() == 0,
{
    s.to_lowercase()
}

/// Trims `raw` and lower-cases what is left.
pub fn normalize(raw: &str) -> (r: String)
    ensures
        r@ == normalized(raw@),
        trimmed(raw@).len() == 0 ==> r@.len() == 0,
{
    let t = trim_str(raw);
    lowercase(t)
}

proof fn lemma_strip_front_no_lead(s: Seq<char>)
    ensures
        strip_front(s).len() > 0 ==> !white_space(strip_front(s)[0]),
        strip_front(strip_front(s)) == strip_front(s),
    decreases s.len(),
{
    if s.len() > 0 && white_space(s[0]) {
        lemma_strip_front_no_lead(s.drop_first());
    }
}

proof fn lemma_strip_back_idem(s: Seq<char>)
    ensures
        strip_back(strip_back(s)) == strip_back(s),
    decreases s.len(),
{
    if s.len() > 0 && white_space(s.last()) {
        lemma_strip_back_idem(s.drop_last());
    }
}

/// Stripping the back of a sequence keeps its first element, where anything is
/// left and the first element is not white space.
proof fn lemma_strip_back_keeps_front(s: Seq<char>)
    requires
        s.len() > 0 ==> !white_space(s[0]),
    ensures
        strip_back(s).len() > 0 ==> strip_back(s)[0] == s[0],
        strip_back(s).len() > 0 ==> !white_space(strip_back(s)[0]),
    decreases s.len(),
{
    if s.len() > 0 && white_space(s.last()) {
        if s.len() > 1 {
            lemma_strip_back_keeps_front(s.drop_last());
        }
    }
}

/// Trimming is idempotent: a trimmed name trims to itself.
pub proof fn lemma_trimmed_idempotent(s: Seq<char>)
    ensures
        trimmed(trimmed(s)) == trimmed(s),
{
    let f = strip_front(s);
    let t = strip_back(f);
    lemma_strip_front_no_lead(s);
    lemma_strip_back_keeps_front(f);
    assert(strip_front(t) == t);
    lemma_strip_back_idem(f);
}

/// All characters of `s` are white space.
pub open spec fn all_white(s: Seq<char>) -> bool {
    forall|i: int| 0 <= i < s.len() ==> white_space(s[i])
}

proof fn lemma_strip_front_concat(s: Seq<char>, t: Seq<char>)
    ensures
        strip_front(s + t) == if strip_front(s).len() > 0 {
            strip_front(s) + t
        } else {
            strip_front(t)
        },
    decreases s.len(),
{
    if s.len() == 0 {
        assert(s + t =~= t);
    } else {
        assert((s + t)[0] == s[0]);
        if white_space(s[0]) {
            assert((s + t).drop_first() =~= s.drop_first() + t);
            lemma_strip_front_concat(s.drop_first(), t);
        }
    }
}

proof fn lemma_strip_front_white_prefix(w: Seq<char>, s: Seq<char>)
    requires
        all_white(w),
    ensures
        strip_front(w + s) == strip_front(s),
    decreases w.len(),
{
    if w.len() == 0 {
        assert(w + s =~= s);
    } else {
        assert((w + s)[0] == w[0]);
        assert((w + s).drop_first() =~= w.drop_first() + s);
        lemma_strip_front_white_prefix(w.drop_first(), s);
    }
}

proof fn lemma_strip_back_white_suffix(s: Seq<char>, w: Seq<char>)
    requires
        all_white(w),
    ensures
        strip_back(s + w) == strip_back(s),
    decreases w.len(),
{
    if w.len() == 0 {
        assert(s + w =~= s);
    } else {
        assert((s + w).last() == w.last());
        assert((s + w).drop_last() =~= s + w.drop_last());
        lemma_strip_back_white_suffix(s, w.drop_last());
    }
}

/// White space added at either end of a name does not change its normal form.
pub proof fn lemma_boundary_white_space(w1: Seq<char>, s: Seq<char>, w2: Seq<char>)
    requires
        all_white(w1),
        all_white(w2),
    ensures
        trimmed(w1 + s + w2) == trimmed(s),
        normalized(w1 + s + w2) == normalized(s),
{
    assert(w1 + s + w2 =~= w1 + (s + w2));
    lemma_strip_front_white_prefix(w1, s + w2);
    lemma_strip_front_concat(s, w2);
    if strip_front(s).len() > 0 {
        lemma_strip_back_white_suffix(strip_front(s), w2);
    } else {
        lemma_strip_front_white_prefix(w2, Seq::empty());
        assert(w2 + Seq::<char>::empty() =~= w2);
    }
}

} // verus!
