//! Small operations on text that the rest of the library is stated over.

use vstd::prelude::*;

verus! {

/// Whether `c` has the Unicode property `White_Space`, the notion of
/// whitespace that `str::trim` removes.
pub uninterp spec fn white_space(c: char) -> bool;

/// `s` without its leading whitespace.
pub open spec fn trimmed_start(s: Seq<char>) -> Seq<char>
    decreases s.len(),
{
    if s.len() > 0 && white_space(s[0]) {
        trimmed_start(s.drop_first())
    } else {
        s
    }
}

/// `s` without its trailing whitespace.
pub open spec fn trimmed_end(s: Seq<char>) -> Seq<char>
    decreases s.len(),
{
    if s.len() > 0 && white_space(s.last()) {
        trimmed_end(s.drop_last())
    } else {
        s
    }
}

/// `s` without leading and trailing whitespace.
pub open spec fn trimmed(s: Seq<char>) -> Seq<char> {
    trimmed_end(trimmed_start(s))
}

/// Calls `str::trim`. Trusted: the result is the text left after the longest
/// run of `White_Space` characters is taken off each end, so that what is
/// left neither starts nor ends with one.
#[verifier::external_body]
pub(crate) fn trim(text: &str) -> (rest: &str)
    ensures
        rest@ == trimmed(text@),
        rest@.len() > 0 ==> !white_space(rest@[0]) && !white_space(rest@.last()),
{
    text.trim()
}

/// Whether `left` comes before `right`, or is the same text, in the order of
/// texts: character by character, by position in the code charts, a text
/// coming before every longer text it begins.
pub open spec fn in_order(left: Seq<char>, right: Seq<char>) -> bool
    decreases left.len(),
{
    if left.len() == 0 {
        true
    } else if right.len() == 0 {
        false
    } else if left[0] != right[0] {
        (left[0] as u32) < (right[0] as u32)
    } else {
        in_order(left.drop_first(), right.drop_first())
    }
}

/// Whether `texts` ascends in the order of texts.
pub open spec fn ascending(texts: Seq<Seq<char>>) -> bool {
    forall|i: int, j: int| 0 <= i < j < texts.len() ==> in_order(texts[i], texts[j])
}

/// `texts` put in ascending order: the same texts, each as often as before.
pub open spec fn arranged(texts: Seq<Seq<char>>) -> Seq<Seq<char>> {
    choose|sorted: Seq<Seq<char>>|
        sorted.to_multiset() == texts.to_multiset() && ascending(sorted)
}

/// Every text is in order with itself.
pub proof fn in_order_is_reflexive(text: Seq<char>)
    ensures
        in_order(text, text),
    decreases text.len(),
{
    if text.len() > 0 {
        in_order_is_reflexive(text.drop_first());
    }
}

/// Two texts that are in order either way round are the same text.
pub proof fn in_order_is_antisymmetric(left: Seq<char>, right: Seq<char>)
    requires
        in_order(left, right),
        in_order(right, left),
    ensures
        left == right,
    decreases left.len(),
{
    if left.len() == 0 {
        assert(left =~= right);
    } else {
        in_order_is_antisymmetric(left.drop_first(), right.drop_first());
        assert(left =~= seq![left[0]] + left.drop_first());
        assert(right =~= seq![right[0]] + right.drop_first());
    }
}

/// The same texts in ascending order are the same sequence.
pub proof fn ascending_order_is_unique(one: Seq<Seq<char>>, other: Seq<Seq<char>>)
    requires
        one.to_multiset() == other.to_multiset(),
        ascending(one),
        ascending(other),
    ensures
        one == other,
    decreases one.len(),
{
    one.to_multiset_ensures();
    other.to_multiset_ensures();
    if one.len() == 0 {
        assert(one =~= other);
    } else {
        let mine = one[0];
        let theirs = other[0];
        assert(one.contains(mine));
        assert(other.contains(theirs));
        assert(other.to_multiset().count(theirs) > 0);
        assert(one.to_multiset().count(theirs) > 0);
        assert(one.contains(theirs));
        assert(one.to_multiset().count(mine) > 0);
        assert(other.to_multiset().count(mine) > 0);
        assert(other.contains(mine));
        let i = choose|i: int| 0 <= i < one.len() && one[i] == theirs;
        let j = choose|j: int| 0 <= j < other.len() && other[j] == mine;
        in_order_is_reflexive(mine);
        in_order_is_reflexive(theirs);
        assert(in_order(mine, theirs));
        assert(in_order(theirs, mine));
        in_order_is_antisymmetric(mine, theirs);
        assert(one.remove(0) =~= one.drop_first());
        assert(other.remove(0) =~= other.drop_first());
        ascending_order_is_unique(one.drop_first(), other.drop_first());
        assert(one =~= seq![mine] + one.drop_first());
        assert(other =~= seq![theirs] + other.drop_first());
    }
}

/// What holds the same texts as `texts`, in ascending order, is
/// [`arranged`] of them.
pub proof fn ascending_is_arranged(texts: Seq<Seq<char>>, sorted: Seq<Seq<char>>)
    requires
        sorted.to_multiset() == texts.to_multiset(),
        ascending(sorted),
    ensures
        sorted == arranged(texts),
{
    ascending_order_is_unique(sorted, arranged(texts));
}

/// Calls `sort` on the vector. Trusted: what comes back holds the same
/// texts as often as before, in ascending order.
#[verifier::external_body]
pub(crate) fn sort(texts: Vec<String>) -> (sorted: Vec<String>)
    ensures
        sorted.deep_view().to_multiset() == texts.deep_view().to_multiset(),
        ascending(sorted.deep_view()),
{
    let mut sorted = texts;
    sorted.sort();
    sorted
}

/// Whether two texts are the same.
pub fn same(left: &str, right: &str) -> (equal: bool)
    ensures
        equal == (left@ == right@),
{
    let a = left.to_owned();
    let b = right.to_owned();
    a == b
}

/// `texts` with `text` at the end.
pub fn appended(texts: Vec<String>, text: String) -> (longer: Vec<String>)
    ensures
        longer.deep_view() == texts.deep_view().push(text@),
{
    let mut longer = texts;
    let ghost before = longer.deep_view();
    let ghost shallow = longer@;
    longer.push(text);
    proof {
        assert forall|i: int| 0 <= i < longer.len() implies longer.deep_view()[i] == before.push(
            text@,
        )[i] by {
            assert(longer.deep_view()[i] == longer[i]@);
            if i < shallow.len() {
                assert(before[i] == shallow[i]@);
            }
        }
        assert(longer.deep_view() =~= before.push(text@));
    }
    longer
}

/// `base`, a slash, and `name`.
pub open spec fn joined(base: Seq<char>, name: Seq<char>) -> Seq<char> {
    base + seq!['/'] + name
}

/// Computes [`joined`].
pub fn join(base: &str, name: &str) -> (path: String)
    ensures
        path@ == joined(base@, name@),
{
    let mut path = base.to_owned();
    proof {
        reveal_strlit("/");
    }
    path.append("/");
    path.append(name);
    assert(path@ =~= joined(base@, name@));
    path
}

} // verus!
