//! The object-listing merge: common prefixes become synthetic directory
//! entries, then real objects follow, with provider-created directory
//! placeholders (key ending in `/`, reported size exactly 0) suppressed.
//! Also the flat mapping of the raw bucket listing.

use vstd::prelude::*;
use vstd::string::*;
use crate::types::{
    opt_seq, BucketModel, BucketSummary, ObjectModel, ObjectSummary, S3Bucket, S3Object,
    SummaryModel,
};

verus! {

/// What the MIME table answers for a key: the first guess for the key's
/// file extension, rendered as `type/subtype`, or nothing when the
/// extension is unrecognized. The answer depends on the key alone.
pub uninterp spec fn mime_lookup(key: Seq<char>) -> Option<Seq<char>>;

/// Relies on `mime_guess::from_path` followed by `MimeGuess::first`:
/// a lookup in a static extension table, a pure function of the path.
#[verifier::external_body]
fn guess_content_type(key: &str) -> (r: Option<String>)
    ensures
        opt_seq(r) == mime_lookup(key@),
{
    match mime_guess::from_path(key).first() {
        Some(m) => Some(m.to_string()),
        None => None,
    }
}

/// A missing key is treated as the empty string.
pub open spec fn key_or_empty(k: Option<Seq<char>>) -> Seq<char> {
    match k {
        Option::Some(s) => s,
        Option::None => Seq::empty(),
    }
}

/// A missing size is treated as 0.
pub open spec fn size_or_zero(s: Option<i64>) -> i64 {
    match s {
        Option::Some(n) => n,
        Option::None => 0,
    }
}

/// A provider-created directory placeholder: the key ends in the path
/// separator and the reported size is exactly 0. A missing size does
/// not count, even when the key ends in the separator.
pub open spec fn is_dir_placeholder(c: SummaryModel) -> bool {
    &&& key_or_empty(c.key).len() > 0
    &&& key_or_empty(c.key).last() == '/'
    &&& c.size == Option::Some(0i64)
}

/// The synthetic directory entry made from one common prefix.
pub open spec fn dir_entry(p: Seq<char>) -> ObjectModel {
    ObjectModel {
        key: p,
        size: 0,
        last_modified: Option::None,
        etag: Option::None,
        storage_class: Option::None,
        is_dir: true,
        content_type: Option::Some("application/x-directory"@),
    }
}

/// The file entry made from one raw object, with the key and size
/// defaulted and the content type taken from the MIME table.
pub open spec fn file_entry(c: SummaryModel) -> ObjectModel {
    ObjectModel {
        key: key_or_empty(c.key),
        size: size_or_zero(c.size),
        last_modified: c.last_modified,
        etag: c.etag,
        storage_class: c.storage_class,
        is_dir: false,
        content_type: mime_lookup(key_or_empty(c.key)),
    }
}

/// The directory entries of a prefix list, in order; absent prefixes
/// contribute nothing.
pub open spec fn dir_entries(ps: Seq<Option<Seq<char>>>) -> Seq<ObjectModel>
    decreases ps.len(),
{
    if ps.len() == 0 {
        Seq::empty()
    } else {
        dir_entries(ps.drop_last()) + (match ps.last() {
            Option::Some(p) => seq![dir_entry(p)],
            Option::None => Seq::<ObjectModel>::empty(),
        })
    }
}

/// The file entries of a raw object list, in order, with directory
/// placeholders suppressed.
pub open spec fn file_entries(cs: Seq<SummaryModel>) -> Seq<ObjectModel>
    decreases cs.len(),
{
    if cs.len() == 0 {
        Seq::empty()
    } else {
        file_entries(cs.drop_last()) + (if is_dir_placeholder(cs.last()) {
            Seq::<ObjectModel>::empty()
        } else {
            seq![file_entry(cs.last())]
        })
    }
}

/// The whole merged listing: every directory entry first, then every
/// file entry, each part in provider response order.
pub open spec fn merged_listing(ps: Seq<Option<Seq<char>>>, cs: Seq<SummaryModel>) -> Seq<
    ObjectModel,
> {
    dir_entries(ps) + file_entries(cs)
}

/// The model of a raw prefix list.
pub open spec fn prefixes_model(v: Seq<Option<String>>) -> Seq<Option<Seq<char>>> {
    v.map_values(|p: Option<String>| opt_seq(p))
}

/// The model of a raw object list.
pub open spec fn summaries_model(v: Seq<ObjectSummary>) -> Seq<SummaryModel> {
    v.map_values(|c: ObjectSummary| c@)
}

/// The model of a merged entry list.
pub open spec fn objects_model(v: Seq<S3Object>) -> Seq<ObjectModel> {
    v.map_values(|o: S3Object| o@)
}

/// Merge one listing response: the directory entries made from the
/// common prefixes, then the file entries made from the objects, with
/// directory placeholders suppressed.
pub fn merge_listing(prefixes: &Vec<Option<String>>, contents: &Vec<ObjectSummary>) -> (r: Vec<
    S3Object,
>)
    ensures
        objects_model(r@) == merged_listing(prefixes_model(prefixes@), summaries_model(contents@)),
{
    let ghost pm = prefixes_model(prefixes@);
    let ghost sm = summaries_model(contents@);
    let mut out: Vec<S3Object> = Vec::new();
    let mut i: usize = 0;
    while i < prefixes.len()
        invariant
            0 <= i <= prefixes.len(),
            pm == prefixes_model(prefixes@),
            objects_model(out@) == dir_entries(pm.take(i as int)),
        decreases prefixes.len() - i,
    {
        let ghost prev = out@;
        match &prefixes[i] {
            Some(p) => {
                let entry = S3Object {
                    key: p.clone(),
                    size: 0,
                    last_modified: None,
                    etag: None,
                    storage_class: None,
                    is_dir: true,
                    content_type: Some(String::from_str("application/x-directory")),
                };
                proof {
                    assert(entry@ == dir_entry(pm[i as int]->Some_0));
                }
                out.push(entry);
            },
            None => {},
        }
        proof {
            assert(pm.take(i + 1 as int).drop_last() =~= pm.take(i as int));
            assert(pm.take(i + 1 as int).last() == pm[i as int]);
            match pm[i as int] {
                Option::Some(p) => {
                    assert(objects_model(out@) =~= objects_model(prev).push(dir_entry(p)));
                    assert(dir_entries(pm.take(i + 1 as int)) =~= dir_entries(pm.take(i as int))
                        + seq![dir_entry(p)]);
                },
                Option::None => {
                    assert(dir_entries(pm.take(i + 1 as int)) =~= dir_entries(pm.take(i as int)));
                },
            }
        }
        i = i + 1;
    }
    proof {
        assert(pm.take(prefixes@.len() as int) =~= pm);
    }
    let mut j: usize = 0;
    while j < contents.len()
        invariant
            0 <= j <= contents.len(),
            pm == prefixes_model(prefixes@),
            sm == summaries_model(contents@),
            objects_model(out@) == dir_entries(pm) + file_entries(sm.take(j as int)),
        decreases contents.len() - j,
    {
        let ghost prev = out@;
        let c = &contents[j];
        let key: String = match &c.key {
            Some(k) => k.clone(),
            None => String::new(),
        };
        let n = key.as_str().unicode_len();
        let zero_sized = match c.size {
            Some(s) => s == 0,
            None => false,
        };
        let placeholder = n > 0 && key.as_str().get_char(n - 1) == '/' && zero_sized;
        proof {
            assert(key@ == key_or_empty(sm[j as int].key));
            assert(placeholder == is_dir_placeholder(sm[j as int]));
        }
        if !placeholder {
            let content_type = guess_content_type(key.as_str());
            let entry = S3Object {
                key,
                size: match c.size {
                    Some(s) => s,
                    None => 0,
                },
                last_modified: c.last_modified,
                etag: match &c.etag {
                    Some(e) => Some(e.clone()),
                    None => None,
                },
                storage_class: match &c.storage_class {
                    Some(s) => Some(s.clone()),
                    None => None,
                },
                is_dir: false,
                content_type,
            };
            proof {
                assert(entry@ == file_entry(sm[j as int]));
            }
            out.push(entry);
        }
        proof {
            assert(sm.take(j + 1 as int).drop_last() =~= sm.take(j as int));
            assert(sm.take(j + 1 as int).last() == sm[j as int]);
            if is_dir_placeholder(sm[j as int]) {
                assert(file_entries(sm.take(j + 1 as int)) =~= file_entries(sm.take(j as int)));
            } else {
                assert(objects_model(out@) =~= objects_model(prev).push(file_entry(sm[j as int])));
                assert(file_entries(sm.take(j + 1 as int)) =~= file_entries(sm.take(j as int))
                    + seq![file_entry(sm[j as int])]);
            }
        }
        j = j + 1;
    }
    proof {
        assert(sm.take(contents@.len() as int) =~= sm);
    }
    out
}

/// The directory entries of an all-present prefix list: one entry per
/// prefix, in order.
proof fn lemma_dir_entries_shape(ps: Seq<Option<Seq<char>>>)
    requires
        forall|i: int| 0 <= i < ps.len() ==> ps[i] is Some,
    ensures
        dir_entries(ps).len() == ps.len(),
        forall|i: int|
            0 <= i < ps.len() ==> #[trigger] dir_entries(ps)[i] == dir_entry(ps[i]->Some_0),
    decreases ps.len(),
{
    if ps.len() > 0 {
        lemma_dir_entries_shape(ps.drop_last());
        assert forall|i: int| 0 <= i < ps.len() implies #[trigger] dir_entries(ps)[i] == dir_entry(
            ps[i]->Some_0,
        ) by {
            if i < ps.len() - 1 {
                assert(dir_entries(ps)[i] == dir_entries(ps.drop_last())[i]);
                assert(ps.drop_last()[i] == ps[i]);
            }
        }
    }
}

/// The file entries of a placeholder-free object list: one entry per
/// object, in order.
proof fn lemma_file_entries_shape(cs: Seq<SummaryModel>)
    requires
        forall|i: int| 0 <= i < cs.len() ==> !is_dir_placeholder(#[trigger] cs[i]),
    ensures
        file_entries(cs).len() == cs.len(),
        forall|i: int| 0 <= i < cs.len() ==> #[trigger] file_entries(cs)[i] == file_entry(cs[i]),
    decreases cs.len(),
{
    if cs.len() > 0 {
        lemma_file_entries_shape(cs.drop_last());
        assert forall|i: int| 0 <= i < cs.len() implies #[trigger] file_entries(cs)[i]
            == file_entry(cs[i]) by {
            if i < cs.len() - 1 {
                assert(file_entries(cs)[i] == file_entries(cs.drop_last())[i]);
                assert(cs.drop_last()[i] == cs[i]);
            }
        }
    }
}

/// For a response of N common prefixes, each present, and M objects,
/// none of which is a directory placeholder, the merged listing holds
/// exactly N + M entries: the N directory entries first, then the M
/// file entries, each part in provider response order.
pub proof fn lemma_merge_shape(ps: Seq<Option<Seq<char>>>, cs: Seq<SummaryModel>)
    requires
        forall|i: int| 0 <= i < ps.len() ==> ps[i] is Some,
        forall|i: int| 0 <= i < cs.len() ==> !is_dir_placeholder(#[trigger] cs[i]),
    ensures
        merged_listing(ps, cs).len() == ps.len() + cs.len(),
        forall|i: int|
            0 <= i < ps.len() ==> #[trigger] merged_listing(ps, cs)[i] == dir_entry(
                ps[i]->Some_0,
            ) && merged_listing(ps, cs)[i].is_dir,
        forall|i: int|
            0 <= i < cs.len() ==> #[trigger] merged_listing(ps, cs)[ps.len() + i] == file_entry(
                cs[i],
            ) && !merged_listing(ps, cs)[ps.len() + i].is_dir,
{
    lemma_dir_entries_shape(ps);
    lemma_file_entries_shape(cs);
}

/// A directory placeholder contributes nothing to the file entries:
/// filtering placeholders out of the response first yields the very
/// same entries.
proof fn lemma_file_entries_drop_placeholders(cs: Seq<SummaryModel>)
    ensures
        file_entries(cs) == file_entries(
            cs.filter(|c: SummaryModel| !is_dir_placeholder(c)),
        ),
    decreases cs.len(),
{
    reveal(Seq::filter);
    let pred = |c: SummaryModel| !is_dir_placeholder(c);
    if cs.len() > 0 {
        lemma_file_entries_drop_placeholders(cs.drop_last());
        let kept = cs.drop_last().filter(pred);
        if pred(cs.last()) {
            assert(cs.filter(pred) == kept.push(cs.last()));
            assert(cs.filter(pred).drop_last() =~= kept);
            assert(cs.filter(pred).last() == cs.last());
            assert(file_entries(cs.filter(pred)) == file_entries(kept) + seq![
                file_entry(cs.last()),
            ]);
        } else {
            assert(cs.filter(pred) == kept);
        }
    }
}

/// Filtering is idempotent: a second pass over an already filtered
/// list excludes nothing further.
proof fn lemma_filter_idempotent(cs: Seq<SummaryModel>, pred: spec_fn(SummaryModel) -> bool)
    ensures
        cs.filter(pred).filter(pred) == cs.filter(pred),
    decreases cs.len(),
{
    reveal(Seq::filter);
    if cs.len() > 0 {
        lemma_filter_idempotent(cs.drop_last(), pred);
        let kept = cs.drop_last().filter(pred);
        if pred(cs.last()) {
            assert(cs.filter(pred) == kept.push(cs.last()));
            assert(cs.filter(pred).drop_last() =~= kept);
            assert(cs.filter(pred).last() == cs.last());
            assert(cs.filter(pred).filter(pred) == kept.filter(pred).push(cs.last()));
        } else {
            assert(cs.filter(pred) == kept);
        }
    }
}

/// Any object whose key ends in the path separator with reported size 0
/// is excluded from the merged listing: suppressing such entries ahead
/// of the merge changes nothing, and doing so twice is the same as
/// doing so once, so a re-run of the listing repeats the exclusion.
pub proof fn lemma_placeholder_excluded(ps: Seq<Option<Seq<char>>>, cs: Seq<SummaryModel>)
    ensures
        merged_listing(ps, cs) == merged_listing(
            ps,
            cs.filter(|c: SummaryModel| !is_dir_placeholder(c)),
        ),
        cs.filter(|c: SummaryModel| !is_dir_placeholder(c)).filter(
            |c: SummaryModel| !is_dir_placeholder(c),
        ) == cs.filter(|c: SummaryModel| !is_dir_placeholder(c)),
{
    lemma_file_entries_drop_placeholders(cs);
    lemma_filter_idempotent(cs, |c: SummaryModel| !is_dir_placeholder(c));
}

/// Map one raw bucket listing to bucket records: a missing name becomes
/// the empty string, the creation timestamp is carried unchanged.
pub open spec fn bucket_record(b: BucketSummary) -> BucketModel {
    BucketModel { name: key_or_empty(opt_seq(b.name)), creation_date: b.creation_date }
}

/// Map every entry of the raw bucket listing, in order.
pub fn list_buckets(raw: Vec<BucketSummary>) -> (r: Vec<S3Bucket>)
    ensures
        r@.len() == raw@.len(),
        forall|i: int| 0 <= i < raw@.len() ==> #[trigger] r@[i]@ == bucket_record(raw@[i]),
{
    let mut out: Vec<S3Bucket> = Vec::new();
    let mut i: usize = 0;
    while i < raw.len()
        invariant
            0 <= i <= raw.len(),
            out@.len() == i,
            forall|k: int| 0 <= k < i ==> #[trigger] out@[k]@ == bucket_record(raw@[k]),
        decreases raw.len() - i,
    {
        let b = &raw[i];
        let name: String = match &b.name {
            Some(n) => n.clone(),
            None => String::new(),
        };
        out.push(S3Bucket { name, creation_date: b.creation_date });
        i = i + 1;
    }
    out
}

} // verus!
