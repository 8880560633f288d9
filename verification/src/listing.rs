//! How stored records are listed: newest first, ties broken by the larger id and then by
//! the order in which they were read, and which records the list filters keep.
use vstd::prelude::*;
use crate::ai_proposal::RuntimeApprovalReviewState;
use crate::mutation::RuntimeEvidenceSourceKind;
use crate::proposal::RuntimeAiProposalStatus;
use crate::text::{ascii_lower_seq, lemma_text_le_order, str_eq, text_le, text_le_exec, to_ascii_lower};

verus! {

broadcast use vstd::std_specs::vec::group_vec_axioms;

/// `a` sorts strictly before `b` as text.
pub open spec fn text_lt(a: Seq<char>, b: Seq<char>) -> bool {
    text_le(a, b) && a != b
}

/// The record read at `ia` with key `a` (created at, id) is listed before the one read
/// at `ib` with key `b`: it is newer, or as new with a larger id, or as new with the same
/// id and read earlier.
pub open spec fn listed_before(a: (u64, Seq<char>), ia: int, b: (u64, Seq<char>), ib: int) -> bool {
    a.0 > b.0 || (a.0 == b.0 && (text_lt(b.1, a.1) || (a.1 == b.1 && ia < ib)))
}

pub open spec fn key_of(keys: Seq<(u64, String)>, i: int) -> (u64, Seq<char>) {
    (keys[i].0, keys[i].1@)
}

/// The listing order is a strict total order on records read at different places.
pub proof fn lemma_listed_before_order(a: (u64, Seq<char>), ia: int, b: (u64, Seq<char>), ib: int, c: (u64, Seq<char>), ic: int)
    ensures
        !listed_before(a, ia, a, ia),
        ia != ib ==> listed_before(a, ia, b, ib) || listed_before(b, ib, a, ia),
        listed_before(a, ia, b, ib) ==> !listed_before(b, ib, a, ia),
        listed_before(a, ia, b, ib) && listed_before(b, ib, c, ic) ==> listed_before(a, ia, c, ic),
{
    lemma_text_le_order(a.1, b.1, c.1);
    lemma_text_le_order(b.1, a.1, c.1);
    lemma_text_le_order(c.1, b.1, a.1);
    lemma_text_le_order(a.1, c.1, b.1);
    lemma_text_le_order(b.1, c.1, a.1);
    lemma_text_le_order(c.1, a.1, b.1);
}

/// `order` lists the records with keys `keys` in listing order.
pub open spec fn in_listing_order(order: Seq<usize>, keys: Seq<(u64, String)>) -> bool {
    forall|j: int, k: int|
        0 <= j < k < order.len() ==> listed_before(
            key_of(keys, order[j] as int),
            order[j] as int,
            key_of(keys, order[k] as int),
            order[k] as int,
        )
}

fn listed_before_exec(keys: &Vec<(u64, String)>, i: usize, j: usize) -> (r: bool)
    requires
        i < keys@.len(),
        j < keys@.len(),
    ensures
        r == listed_before(key_of(keys@, i as int), i as int, key_of(keys@, j as int), j as int),
{
    let a = &keys[i];
    let b = &keys[j];
    if a.0 != b.0 {
        return a.0 > b.0;
    }
    let same = str_eq(a.1.as_str(), b.1.as_str());
    if same {
        i < j
    } else {
        text_le_exec(b.1.as_str(), a.1.as_str())
    }
}

/// The positions of the records in the order they are listed: newest first, then by
/// larger id, then in the order they were read. Every position appears exactly once.
pub fn newest_first_order(keys: &Vec<(u64, String)>) -> (r: Vec<usize>)
    ensures
        r@.len() == keys@.len(),
        forall|j: int| 0 <= j < r@.len() ==> #[trigger] r@[j] < keys@.len(),
        forall|x: usize| x < keys@.len() ==> #[trigger] r@.contains(x),
        in_listing_order(r@, keys@),
{
    let n = keys.len();
    let mut order: Vec<usize> = Vec::new();
    let mut i: usize = 0;
    while i < n
        invariant
            n == keys@.len(),
            i <= n,
            order@.len() == i,
            forall|j: int| 0 <= j < order@.len() ==> #[trigger] order@[j] < i,
            forall|x: usize| x < i ==> #[trigger] order@.contains(x),
            in_listing_order(order@, keys@),
        decreases n - i,
    {
        let mut p: usize = 0;
        while p < order.len() && !listed_before_exec(keys, i, order[p])
            invariant
                n == keys@.len(),
                i < n,
                p <= order@.len(),
                forall|j: int| 0 <= j < order@.len() ==> #[trigger] order@[j] < i,
                forall|j: int|
                    0 <= j < p ==> !listed_before(
                        key_of(keys@, i as int),
                        i as int,
                        key_of(keys@, #[trigger] order@[j] as int),
                        order@[j] as int,
                    ),
            decreases order@.len() - p,
        {
            p += 1;
        }
        let ghost before = order@;
        proof {
            assert forall|j: int| 0 <= j < p implies listed_before(
                key_of(keys@, #[trigger] before[j] as int),
                before[j] as int,
                key_of(keys@, i as int),
                i as int,
            ) by {
                lemma_listed_before_order(
                    key_of(keys@, before[j] as int),
                    before[j] as int,
                    key_of(keys@, i as int),
                    i as int,
                    key_of(keys@, i as int),
                    i as int,
                );
            }
            if p < before.len() {
                assert forall|k: int| p <= k < before.len() implies listed_before(
                    key_of(keys@, i as int),
                    i as int,
                    key_of(keys@, #[trigger] before[k] as int),
                    before[k] as int,
                ) by {
                    if k > p {
                        lemma_listed_before_order(
                            key_of(keys@, i as int),
                            i as int,
                            key_of(keys@, before[p as int] as int),
                            before[p as int] as int,
                            key_of(keys@, before[k] as int),
                            before[k] as int,
                        );
                    }
                }
            }
        }
        order.insert(p, i);
        proof {
            assert(order@ =~= before.subrange(0, p as int).push(i) + before.subrange(p as int, before.len() as int));
            assert forall|j: int, k: int| 0 <= j < k < order@.len() implies listed_before(
                key_of(keys@, order@[j] as int),
                order@[j] as int,
                key_of(keys@, order@[k] as int),
                order@[k] as int,
            ) by {
                if j < p && k < p {
                    assert(order@[j] == before[j] && order@[k] == before[k]);
                } else if j < p && k == p {
                    assert(order@[j] == before[j]);
                } else if j < p {
                    assert(order@[j] == before[j] && order@[k] == before[k - 1]);
                    lemma_listed_before_order(
                        key_of(keys@, before[j] as int),
                        before[j] as int,
                        key_of(keys@, i as int),
                        i as int,
                        key_of(keys@, before[k - 1] as int),
                        before[k - 1] as int,
                    );
                } else if j == p {
                    assert(order@[k] == before[k - 1]);
                } else {
                    assert(order@[j] == before[j - 1] && order@[k] == before[k - 1]);
                }
            }
            assert forall|x: usize| x < i + 1 implies #[trigger] order@.contains(x) by {
                if x == i {
                    assert(order@[p as int] == i);
                } else {
                    assert(before.contains(x));
                    let w = choose|w: int| 0 <= w < before.len() && before[w] == x;
                    if w < p {
                        assert(order@[w] == before[w]);
                    } else {
                        assert(order@[w + 1] == before[w]);
                    }
                }
            }
            assert forall|j: int| 0 <= j < order@.len() implies #[trigger] order@[j] < i + 1 by {
                if j < p {
                    assert(order@[j] == before[j]);
                } else if j > p {
                    assert(order@[j] == before[j - 1]);
                }
            }
        }
        i += 1;
    }
    order
}

/// A record of kind `kind` anchored to `source_id` passes the list's source filters: the
/// kind asked for, if one is, and the source id asked for, if one is.
pub open spec fn source_filter_keeps(
    kind: RuntimeEvidenceSourceKind,
    source_id: Seq<char>,
    kind_filter: Option<RuntimeEvidenceSourceKind>,
    id_filter: Option<Seq<char>>,
) -> bool {
    (match kind_filter {
        Some(k) => kind == k,
        None => true,
    }) && (match id_filter {
        Some(s) => source_id == s,
        None => true,
    })
}

/// Whether a record passes the source filters of a mutation or proposal list; the source
/// id filter is taken as cleaned.
pub fn keeps_source(
    kind: RuntimeEvidenceSourceKind,
    source_id: &str,
    kind_filter: Option<RuntimeEvidenceSourceKind>,
    id_filter: Option<&str>,
) -> (r: bool)
    ensures
        r == source_filter_keeps(
            kind,
            source_id@,
            kind_filter,
            match id_filter {
                Some(s) => Some(s@),
                None => None,
            },
        ),
{
    let kind_ok = match kind_filter {
        Some(k) => kind == k,
        None => true,
    };
    kind_ok && match id_filter {
        Some(s) => str_eq(source_id, s),
        None => true,
    }
}

/// Whether an AI proposal passes the list's status filter.
pub fn keeps_status(status: RuntimeAiProposalStatus, status_filter: Option<RuntimeAiProposalStatus>) -> (r: bool)
    ensures
        r == match status_filter {
            Some(s) => status == s,
            None => true,
        },
{
    match status_filter {
        Some(s) => status == s,
        None => true,
    }
}

/// The name of a review state as the approval list's filter matches it: its variant name
/// in lower case.
pub open spec fn review_state_name(s: RuntimeApprovalReviewState) -> Seq<char> {
    match s {
        RuntimeApprovalReviewState::Pending => "pending"@,
        RuntimeApprovalReviewState::UnderReview => "underreview"@,
        RuntimeApprovalReviewState::Approved => "approved"@,
        RuntimeApprovalReviewState::Rejected => "rejected"@,
        RuntimeApprovalReviewState::Expired => "expired"@,
    }
}

fn review_state_name_exec(s: RuntimeApprovalReviewState) -> (r: &'static str)
    ensures
        r@ == review_state_name(s),
{
    match s {
        RuntimeApprovalReviewState::Pending => "pending",
        RuntimeApprovalReviewState::UnderReview => "underreview",
        RuntimeApprovalReviewState::Approved => "approved",
        RuntimeApprovalReviewState::Rejected => "rejected",
        RuntimeApprovalReviewState::Expired => "expired",
    }
}

/// Whether an approval passes the list's review state filter: the filter names its
/// state, in any case.
pub fn keeps_review_state(state: RuntimeApprovalReviewState, filter: &str) -> (r: bool)
    ensures
        r == (review_state_name(state) == ascii_lower_seq(filter@)),
{
    let lowered = to_ascii_lower(filter);
    str_eq(review_state_name_exec(state), lowered.as_str())
}

} // verus!
