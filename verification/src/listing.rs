use crate::errors::PipelineError;
use crate::json::{spec_json_ok, spec_category_ids, json_ok, category_ids};
use vstd::prelude::*;

verus! {

/// The views of a sequence of strings.
pub open spec fn spec_views(v: Seq<String>) -> Seq<Seq<char>> {
    v.map_values(|s: String| s@)
}

/// True when no two positions of `ids` hold the same string.
pub open spec fn spec_distinct(ids: Seq<Seq<char>>) -> bool {
    forall|i: int, j: int| 0 <= i < j < ids.len() ==> ids[i] != ids[j]
}

/// The identifiers one category of the listing contributes: the keys of
/// its object, or nothing when the category is absent or malformed.
pub open spec fn spec_category_set(body: Seq<char>, category: Seq<char>) -> Set<Seq<char>> {
    match spec_category_ids(body, category) {
        Some(ids) => ids.to_set(),
        None => Set::empty(),
    }
}

pub proof fn lemma_push_to_set(q: Seq<Seq<char>>, x: Seq<char>)
    ensures
        q.push(x).to_set() == q.to_set().insert(x),
{
    assert forall|y: Seq<char>| q.push(x).contains(y) implies q.contains(y) || y == x by {
        let k = choose|k: int| 0 <= k < q.push(x).len() && q.push(x)[k] == y;
        if k < q.len() {
            assert(q[k] == y);
        }
    }
    assert forall|y: Seq<char>| q.contains(y) implies q.push(x).contains(y) by {
        let k = choose|k: int| 0 <= k < q.len() && q[k] == y;
        assert(q.push(x)[k] == y);
    }
    assert(q.push(x)[q.len() as int] == x);
    assert(q.push(x).to_set() =~= q.to_set().insert(x));
}

pub(crate) fn contains_str(v: &Vec<String>, s: &String) -> (r: bool)
    ensures
        r == spec_views(v@).contains(s@),
{
    let mut i: usize = 0;
    while i < v.len()
        invariant
            i <= v@.len(),
            forall|k: int| 0 <= k < i ==> spec_views(v@)[k] != s@,
        decreases v@.len() - i,
    {
        if v[i].eq(s) {
            assert(spec_views(v@)[i as int] == s@);
            return true;
        }
        i += 1;
    }
    false
}

fn push_distinct(out: &mut Vec<String>, src: &Vec<String>)
    requires
        spec_distinct(spec_views(old(out)@)),
    ensures
        spec_distinct(spec_views(final(out)@)),
        spec_views(final(out)@).to_set() == spec_views(old(out)@).to_set().union(
            spec_views(src@).to_set(),
        ),
{
    let mut i: usize = 0;
    while i < src.len()
        invariant
            i <= src@.len(),
            spec_distinct(spec_views(out@)),
            spec_views(out@).to_set() =~= spec_views(old(out)@).to_set().union(
                spec_views(src@.take(i as int)).to_set(),
            ),
        decreases src@.len() - i,
    {
        let s = src[i].clone();
        assert(s@ == spec_views(src@)[i as int]);
        let ghost prev = out@;
        let present = contains_str(out, &s);
        if !present {
            out.push(s);
            proof {
                assert(spec_views(out@) =~= spec_views(prev).push(spec_views(src@)[i as int]));
                lemma_push_to_set(spec_views(prev), spec_views(src@)[i as int]);
            }
        }
        proof {
            let x = spec_views(src@)[i as int];
            assert(spec_views(src@.take(i + 1)) =~= spec_views(src@.take(i as int)).push(x));
            lemma_push_to_set(spec_views(src@.take(i as int)), x);
            if present {
                assert(spec_views(prev).to_set().contains(x));
            }
            assert(spec_views(out@).to_set() =~= spec_views(old(out)@).to_set().union(
                spec_views(src@.take(i + 1)).to_set(),
            ));
        }
        i += 1;
    }
    proof {
        assert(src@.take(src@.len() as int) =~= src@);
    }
}

/// Flattens one listing into the distinct union of the identifiers of
/// both categories, illustrations first.
pub fn resolve_item_ids(illusts: &Vec<String>, manga: &Vec<String>) -> (r: Vec<String>)
    ensures
        spec_distinct(spec_views(r@)),
        spec_views(r@).to_set() == spec_views(illusts@).to_set().union(spec_views(manga@).to_set()),
{
    let mut out: Vec<String> = Vec::new();
    proof {
        assert(spec_views(out@).to_set() =~= Set::<Seq<char>>::empty());
    }
    push_distinct(&mut out, illusts);
    push_distinct(&mut out, manga);
    proof {
        assert(spec_views(out@).to_set() =~= spec_views(illusts@).to_set().union(
            spec_views(manga@).to_set(),
        ));
    }
    out
}

/// Resolves the full set of item identifiers out of one listing-endpoint
/// response body: the distinct union of the keys under `.body.illusts`
/// and `.body.manga`. Rejects a body that is not JSON; a category that
/// is absent or malformed contributes nothing.
pub fn resolve_from_body(body: &str) -> (r: Result<Vec<String>, PipelineError>)
    ensures
        match r {
            Ok(ids) => spec_json_ok(body@) && spec_distinct(spec_views(ids@)) && spec_views(
                ids@,
            ).to_set() == spec_category_set(body@, "illusts"@).union(
                spec_category_set(body@, "manga"@),
            ),
            Err(e) => e == PipelineError::Parse && !spec_json_ok(body@),
        },
{
    if !json_ok(body) {
        return Err(PipelineError::Parse);
    }
    let illusts = match category_ids(body, "illusts") {
        Some(v) => v,
        None => Vec::new(),
    };
    let manga = match category_ids(body, "manga") {
        Some(v) => v,
        None => Vec::new(),
    };
    proof {
        assert(spec_views(illusts@) =~= illusts.deep_view());
        assert(spec_views(manga@) =~= manga.deep_view());
        assert(spec_views(illusts@).to_set() =~= spec_category_set(body@, "illusts"@));
        assert(spec_views(manga@).to_set() =~= spec_category_set(body@, "manga"@));
    }
    Ok(resolve_item_ids(&illusts, &manga))
}

} // verus!
