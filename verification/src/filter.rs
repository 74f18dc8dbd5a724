//! The encoding candidate filter: of the supported table, keep exactly
//! the encodings that decode every entry name of an archive without
//! error and to non-empty text, in table order.
use vstd::prelude::*;
use crate::encodings::{
    check_name, encoding_at, name_fits, EncodingId, ENCODING_COUNT,
};

verus! {

/// The views of a list of raw entry names.
pub open spec fn byte_seqs(names: Seq<Vec<u8>>) -> Seq<Seq<u8>> {
    names.map_values(|v: Vec<u8>| v@)
}

/// Whether encoding `i` of the table passes the validity heuristic on
/// every name of the archive.
pub open spec fn fits_all(i: int, names: Seq<Seq<u8>>) -> bool {
    forall|k: int| 0 <= k < names.len() ==> name_fits(i, #[trigger] names[k])
}

/// The table positions below `n` whose encoding fits all names, in
/// table order.
pub open spec fn candidates_upto(n: int, names: Seq<Seq<u8>>) -> Seq<int>
    decreases n,
{
    if n <= 0 {
        Seq::empty()
    } else if fits_all(n - 1, names) {
        candidates_upto(n - 1, names).push(n - 1)
    } else {
        candidates_upto(n - 1, names)
    }
}

/// The candidate result set for the given entry names: the table
/// positions of exactly the encodings that fit all of them, in table
/// order.
pub open spec fn candidates(names: Seq<Seq<u8>>) -> Seq<int> {
    candidates_upto(ENCODING_COUNT as int, names)
}

/// Whether `enc` passes the validity heuristic on every one of `names`.
pub fn fits_all_names(enc: &EncodingId, names: &Vec<Vec<u8>>) -> (r: bool)
    ensures
        r == fits_all(enc@, byte_seqs(names@)),
{
    let mut k: usize = 0;
    while k < names.len()
        invariant
            k <= names@.len(),
            forall|j: int| 0 <= j < k ==> name_fits(enc@, #[trigger] byte_seqs(names@)[j]),
        decreases names@.len() - k,
    {
        if !check_name(enc, names[k].as_slice()) {
            assert(!name_fits(enc@, byte_seqs(names@)[k as int]));
            return false;
        }
        k = k + 1;
    }
    true
}

/// The encoding candidate filter: starting from the whole supported
/// table in order, drop every encoding that reports a decode error or
/// decodes to empty text on some entry name; the rest come back in
/// table order. An empty result is a valid outcome, not an error.
pub fn filter_names(names: &Vec<Vec<u8>>) -> (r: Vec<EncodingId>)
    ensures
        r@.map_values(|e: EncodingId| e@) == candidates(byte_seqs(names@)),
{
    let mut out: Vec<EncodingId> = Vec::new();
    let mut i: u8 = 0;
    while i < 39
        invariant
            i <= ENCODING_COUNT,
            out@.map_values(|e: EncodingId| e@) =~= candidates_upto(i as int, byte_seqs(names@)),
        decreases ENCODING_COUNT - i,
    {
        let e = encoding_at(i);
        if fits_all_names(&e, names) {
            out.push(e);
        }
        assert(out@.map_values(|e: EncodingId| e@) =~= candidates_upto(
            i as int + 1,
            byte_seqs(names@),
        ));
        i = i + 1;
    }
    out
}

/// The default-extraction rule when no encoding was requested: the
/// first passing candidate wins; an empty candidate list leaves no
/// default. The table is a priority list, so this must stay the first
/// element, never some other pick.
pub fn default_encoding(cands: &Vec<EncodingId>) -> (r: Option<EncodingId>)
    ensures
        match r {
            Some(e) => cands@.len() > 0 && e == cands@[0],
            None => cands@.len() == 0,
        },
{
    if cands.len() > 0 {
        Some(cands[0])
    } else {
        None
    }
}

/// Every position in the candidate list lies in the table and fits all
/// names; no position outside the candidate list does; and the list is
/// strictly increasing, so it is a subsequence of the table order.
proof fn lemma_candidates_upto(n: int, names: Seq<Seq<u8>>)
    requires
        0 <= n,
    ensures
        forall|j: int| 0 <= j < candidates_upto(n, names).len()
            ==> 0 <= #[trigger] candidates_upto(n, names)[j] < n
                && fits_all(candidates_upto(n, names)[j], names),
        forall|i: int| 0 <= i < n && fits_all(i, names)
            ==> candidates_upto(n, names).contains(i),
        forall|a: int, b: int| 0 <= a < b < candidates_upto(n, names).len()
            ==> #[trigger] candidates_upto(n, names)[a]
                < #[trigger] candidates_upto(n, names)[b],
    decreases n,
{
    if n > 0 {
        lemma_candidates_upto(n - 1, names);
        let prev = candidates_upto(n - 1, names);
        let cur = candidates_upto(n, names);
        if fits_all(n - 1, names) {
            assert forall|i: int| 0 <= i < n && fits_all(i, names) implies cur.contains(i) by {
                if i < n - 1 {
                    let j = choose|j: int| 0 <= j < prev.len() && prev[j] == i;
                    assert(cur[j] == i);
                } else {
                    assert(cur[cur.len() - 1] == i);
                }
            }
        } else {
            assert forall|i: int| 0 <= i < n && fits_all(i, names) implies cur.contains(i) by {
                let j = choose|j: int| 0 <= j < prev.len() && prev[j] == i;
                assert(cur[j] == i);
            }
        }
    }
}

/// Filter soundness: every encoding the filter returns decodes every
/// entry name without error and to non-empty text.
pub proof fn lemma_filter_sound(names: Seq<Seq<u8>>, j: int)
    requires
        0 <= j < candidates(names).len(),
    ensures
        0 <= candidates(names)[j] < ENCODING_COUNT,
        forall|k: int| 0 <= k < names.len()
            ==> name_fits(candidates(names)[j], #[trigger] names[k]),
{
    lemma_candidates_upto(ENCODING_COUNT as int, names);
}

/// Filter completeness: every supported encoding that the filter does
/// not return fails the validity heuristic on at least one entry name.
pub proof fn lemma_filter_complete(names: Seq<Seq<u8>>, i: int)
    requires
        0 <= i < ENCODING_COUNT,
        !candidates(names).contains(i),
    ensures
        exists|k: int| 0 <= k < names.len() && !name_fits(i, #[trigger] names[k]),
{
    lemma_candidates_upto(ENCODING_COUNT as int, names);
    assert(!fits_all(i, names));
}

/// Order preservation: the filter's output is strictly increasing in
/// table position, so it is a subsequence of the supported table in its
/// original order.
pub proof fn lemma_filter_order(names: Seq<Seq<u8>>, a: int, b: int)
    requires
        0 <= a < b < candidates(names).len(),
    ensures
        candidates(names)[a] < candidates(names)[b],
{
    lemma_candidates_upto(ENCODING_COUNT as int, names);
}

} // verus!
