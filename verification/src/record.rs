//! The extracted unit of output — a validated title — and the validation
//! rule splitting raw attribute values into kept records and rejected
//! titles.
use vstd::prelude::*;
use vstd::multiset::Multiset;
use vstd::string::StrSliceExecFns;

verus! {

/// One validated extracted title, the atomic unit of output.
pub struct Record {
    /// The title text.
    pub title: String,
}

/// The titles of a sequence of records, in order.
pub open spec fn titles_of(records: Seq<Record>) -> Seq<Seq<char>> {
    records.map_values(|r: Record| r.title@)
}

/// A title is kept when it has strictly more than `min_len` characters.
pub open spec fn title_kept(title: Seq<char>, min_len: nat) -> bool {
    title.len() > min_len
}

/// The titles of `raw` that the validation rule keeps, in order.
pub open spec fn kept_titles(raw: Seq<Seq<char>>, min_len: nat) -> Seq<Seq<char>> {
    raw.filter(|t: Seq<char>| title_kept(t, min_len))
}

/// The titles of `raw` that the validation rule rejects, in order.
pub open spec fn rejected_titles(raw: Seq<Seq<char>>, min_len: nat) -> Seq<Seq<char>> {
    raw.filter(|t: Seq<char>| !title_kept(t, min_len))
}

/// What validation makes of one batch of raw titles: the records that are
/// kept and the titles that are rejected (so callers can log them).
pub struct Extraction {
    /// The valid records, in input order.
    pub kept: Vec<Record>,
    /// The rejected titles, in input order.
    pub rejected: Vec<String>,
}

impl Extraction {
    /// An extraction with no records and no rejections.
    pub fn empty() -> (out: Extraction)
        ensures
            out.kept@ =~= Seq::<Record>::empty(),
            out.rejected@ =~= Seq::<String>::empty(),
    {
        Extraction { kept: Vec::new(), rejected: Vec::new() }
    }
}

/// Every raw title lands on exactly one side: kept when it has more than
/// `min_len` characters, rejected otherwise, both sides in input order and
/// together covering the whole input.
pub proof fn lemma_partition_complete(raw: Seq<Seq<char>>, min_len: nat)
    ensures
        kept_titles(raw, min_len).len() + rejected_titles(raw, min_len).len() == raw.len(),
        forall|i: int|
            0 <= i < kept_titles(raw, min_len).len() ==> title_kept(
                #[trigger] kept_titles(raw, min_len)[i],
                min_len,
            ),
        forall|i: int|
            0 <= i < rejected_titles(raw, min_len).len() ==> !title_kept(
                #[trigger] rejected_titles(raw, min_len)[i],
                min_len,
            ),
    decreases raw.len(),
{
    reveal(Seq::filter);
    broadcast use Seq::lemma_filter_pred;

    if raw.len() > 0 {
        lemma_partition_complete(raw.drop_last(), min_len);
    } else {
        assert(kept_titles(raw, min_len).len() == 0);
        assert(rejected_titles(raw, min_len).len() == 0);
    }
}

/// A title longer than `min_len` is kept exactly as often as it occurs in
/// the raw input — no qualifying occurrence is dropped or duplicated — and
/// a title of at most `min_len` characters is never kept.
pub proof fn lemma_kept_multiplicity(raw: Seq<Seq<char>>, min_len: nat, title: Seq<char>)
    ensures
        title_kept(title, min_len) ==> kept_titles(raw, min_len).to_multiset().count(title)
            == raw.to_multiset().count(title),
        !title_kept(title, min_len) ==> kept_titles(raw, min_len).to_multiset().count(title) == 0,
    decreases raw.len(),
{
    reveal(Seq::filter);
    broadcast use vstd::seq_lib::group_to_multiset_ensures;
    broadcast use vstd::multiset::group_multiset_axioms;
    broadcast use vstd::multiset::group_multiset_properties;

    if raw.len() == 0 {
        assert(!raw.contains(title));
        assert(raw.to_multiset().count(title) == 0);
        assert(!kept_titles(raw, min_len).contains(title));
        assert(kept_titles(raw, min_len).to_multiset().count(title) == 0);
    } else {
        lemma_kept_multiplicity(raw.drop_last(), min_len, title);
        assert(raw.drop_last().push(raw.last()).to_multiset() =~= raw.drop_last().to_multiset()
            .insert(raw.last()));
        assert(raw =~= raw.drop_last().push(raw.last()));
        let kept_short = kept_titles(raw.drop_last(), min_len);
        if title_kept(raw.last(), min_len) {
            assert(kept_titles(raw, min_len) == kept_short.push(raw.last()));
            assert(kept_short.push(raw.last()).to_multiset() =~= kept_short.to_multiset().insert(
                raw.last(),
            ));
        } else {
            assert(kept_titles(raw, min_len) == kept_short);
        }
    }
}

/// Splits a batch of raw titles by character count: titles longer than
/// `min_len` become records, the rest are rejected, both in input order.
pub fn partition_titles(raw: &Vec<String>, min_len: usize) -> (out: Extraction)
    ensures
        titles_of(out.kept@) == kept_titles(raw.deep_view(), min_len as nat),
        out.rejected.deep_view() == rejected_titles(raw.deep_view(), min_len as nat),
{
    let ghost rv = raw.deep_view();
    let mut kept: Vec<Record> = Vec::new();
    let mut rejected: Vec<String> = Vec::new();
    let mut i: usize = 0;
    while i < raw.len()
        invariant
            i <= raw.len(),
            rv == raw.deep_view(),
            rv.len() == raw@.len(),
            forall|k: int| 0 <= k < rv.len() ==> rv[k] == #[trigger] raw@[k]@,
            titles_of(kept@) =~= kept_titles(rv.take(i as int), min_len as nat),
            rejected.deep_view() =~= rejected_titles(rv.take(i as int), min_len as nat),
        decreases raw.len() - i,
    {
        let ghost old_kept = kept@;
        let ghost old_rejected = rejected.deep_view();
        let title = raw[i].clone();
        let keep = title.as_str().unicode_len() > min_len;
        proof {
            reveal(Seq::filter);
            assert(rv.take(i + 1 as int).drop_last() =~= rv.take(i as int));
            assert(rv.take(i + 1 as int).last() == title@);
        }
        if keep {
            kept.push(Record { title });
            proof {
                assert(titles_of(kept@) =~= titles_of(old_kept).push(kept@.last().title@));
            }
        } else {
            rejected.push(title);
            proof {
                assert(rejected.deep_view() =~= old_rejected.push(rejected@.last()@));
            }
        }
        i = i + 1;
    }
    proof {
        assert(rv.take(raw@.len() as int) =~= rv);
    }
    Extraction { kept, rejected }
}

} // verus!
