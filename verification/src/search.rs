//! Case-insensitive substring search over method names: the specification
//! of the filtered method list and the executable filter that computes it.

use vstd::prelude::*;

verus! {

/// The lowercase form of a character sequence, as `str::to_lowercase`
/// computes it. The full Unicode mapping is not written out here; it is
/// a fixed function of the characters alone.
pub uninterp spec fn lower_of(s: Seq<char>) -> Seq<char>;

/// Relies on `str::to_lowercase`: the result depends on the characters of
/// `s` alone, and an empty string stays empty.
pub assume_specification[ str::to_lowercase ](s: &str) -> (r: String)
    ensures
        r@ == lower_of(s@),
        s@.len() == 0 ==> r@.len() == 0,
;

/// Relies on `String::push`: appends one character at the end.
pub assume_specification[ String::push ](s: &mut String, c: char)
    ensures
        final(s)@ == old(s)@.push(c),
;

/// Relies on `String::pop`: removes and returns the last character, or
/// leaves an empty string unchanged and returns `None`.
pub assume_specification[ String::pop ](s: &mut String) -> (r: Option<char>)
    ensures
        old(s)@.len() == 0 ==> final(s)@ == old(s)@ && r is None,
        old(s)@.len() > 0 ==> final(s)@ == old(s)@.drop_last() && r == Some(old(s)@.last()),
;

/// `needle` occurs in `hay` as a contiguous run of characters.
pub open spec fn is_substring(needle: Seq<char>, hay: Seq<char>) -> bool {
    exists|i: int|
        0 <= i && i + needle.len() <= hay.len() && #[trigger] hay.subrange(i, i + needle.len())
            == needle
}

/// Relies on `str::contains` with a `&str` pattern: true exactly when the
/// pattern occurs as a contiguous substring. UTF-8 is self-synchronizing,
/// so a byte-level match is always aligned on character boundaries.
#[verifier::external_body]
pub(crate) fn contains_substr(hay: &str, needle: &str) -> (r: bool)
    ensures
        r == is_substring(needle@, hay@),
{
    hay.contains(needle)
}

/// A method name matches a search query when the query is empty or the
/// lowercase query occurs inside the lowercase name.
pub open spec fn name_matches(name: Seq<char>, query: Seq<char>) -> bool {
    query.len() == 0 || is_substring(lower_of(query), lower_of(name))
}

/// The subsequence of `ms` whose names match `query`, in original order.
pub open spec fn filter_spec(ms: Seq<String>, query: Seq<char>) -> Seq<String>
    decreases ms.len(),
{
    if ms.len() == 0 {
        Seq::empty()
    } else {
        filter_spec(ms.drop_last(), query) + if name_matches(ms.last()@, query) {
            seq![ms.last()]
        } else {
            Seq::empty()
        }
    }
}

/// Computes the filtered method list: exactly the names whose lowercase
/// form contains the lowercase query, in the order they appear in `ms`.
pub fn filter_names(ms: &Vec<String>, query: &String) -> (r: Vec<String>)
    ensures
        r@ == filter_spec(ms@, query@),
{
    let lower_query = query.as_str().to_lowercase();
    let mut r: Vec<String> = Vec::new();
    let mut i: usize = 0;
    while i < ms.len()
        invariant
            i <= ms@.len(),
            lower_query@ == lower_of(query@),
            query@.len() == 0 ==> lower_query@.len() == 0,
            r@ == filter_spec(ms@.take(i as int), query@),
        decreases ms@.len() - i,
    {
        let lower_name = ms[i].as_str().to_lowercase();
        let matched = query.as_str().is_empty()
            || contains_substr(lower_name.as_str(), lower_query.as_str());
        proof {
            assert(matched == name_matches(ms@[i as int]@, query@));
            assert(ms@.take(i as int + 1).drop_last() =~= ms@.take(i as int));
            assert(ms@.take(i as int + 1).last() == ms@[i as int]);
        }
        if matched {
            r.push(ms[i].clone());
        }
        i = i + 1;
    }
    proof {
        assert(ms@.take(ms@.len() as int) =~= ms@);
    }
    r
}

/// When every name in `ms` matches `query`, filtering keeps the whole
/// list unchanged.
pub proof fn lemma_filter_all_match(ms: Seq<String>, query: Seq<char>)
    requires
        forall|i: int| 0 <= i < ms.len() ==> name_matches(ms[i]@, query),
    ensures
        filter_spec(ms, query) == ms,
    decreases ms.len(),
{
    if ms.len() == 0 {
        assert(filter_spec(ms, query) =~= ms);
    } else {
        lemma_filter_all_match(ms.drop_last(), query);
        assert(name_matches(ms.last()@, query));
        assert(filter_spec(ms, query) =~= ms);
    }
}

/// An empty search query filters nothing out: the filtered list is the
/// full method list, whatever it held before.
pub proof fn lemma_filter_empty_query(ms: Seq<String>)
    ensures
        filter_spec(ms, Seq::empty()) == ms,
{
    lemma_filter_all_match(ms, Seq::empty());
}

/// Every name the filter keeps matches the query.
pub proof fn lemma_filter_matches(ms: Seq<String>, query: Seq<char>)
    ensures
        forall|i: int|
            0 <= i < filter_spec(ms, query).len() ==> name_matches(
                #[trigger] filter_spec(ms, query)[i]@,
                query,
            ),
    decreases ms.len(),
{
    if ms.len() > 0 {
        lemma_filter_matches(ms.drop_last(), query);
        let rest = filter_spec(ms.drop_last(), query);
        let whole = filter_spec(ms, query);
        assert forall|i: int| 0 <= i < whole.len() implies name_matches(
            #[trigger] whole[i]@,
            query,
        ) by {
            if i < rest.len() {
                assert(whole[i] == rest[i]);
            } else {
                assert(whole[i] == ms.last());
            }
        }
    }
}

/// The filter never lengthens the list.
pub proof fn lemma_filter_len(ms: Seq<String>, query: Seq<char>)
    ensures
        filter_spec(ms, query).len() <= ms.len(),
    decreases ms.len(),
{
    if ms.len() > 0 {
        lemma_filter_len(ms.drop_last(), query);
    }
}

/// Filtering is idempotent: running the filter over its own output with
/// the same query changes nothing.
pub proof fn lemma_filter_idempotent(ms: Seq<String>, query: Seq<char>)
    ensures
        filter_spec(filter_spec(ms, query), query) == filter_spec(ms, query),
{
    lemma_filter_matches(ms, query);
    lemma_filter_all_match(filter_spec(ms, query), query);
}

} // verus!
