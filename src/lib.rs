//! Rendering of bibliographic records in APA and IEEE style, and a
//! bibliography that holds them.
use crate::api::citation::Citation;
use crate::api::date::PublishDate;
use crate::api::errors::CitationError;
use std::cmp::Ordering;
use vstd::prelude::*;
use vstd::string::*;

pub mod api;
pub mod html;
pub mod numerals;
pub mod unicode;

verus! {

/// No two citations share an identifier.
pub open spec fn ids_unique(citations: Seq<Citation>) -> bool {
    forall|i: int, j: int|
        0 <= i < j < citations.len() ==> #[trigger] citations[i].id_spec()
            != #[trigger] citations[j].id_spec()
}

/// Some citation has the identifier `id`.
pub open spec fn holds_id(citations: Seq<Citation>, id: Seq<char>) -> bool {
    exists|i: int| 0 <= i < citations.len() && #[trigger] citations[i].id_spec() == id
}

/// The citations after adding `citation`: appended when its identifier is
/// new, unchanged otherwise.
pub open spec fn after_add(citations: Seq<Citation>, citation: Citation) -> Seq<Citation> {
    if holds_id(citations, citation.id_spec()) {
        citations
    } else {
        citations.push(citation)
    }
}

/// Publication order of citations: an undated citation is older than a
/// dated one; dated ones go by the order of dates.
pub open spec fn older(a: Option<PublishDate>, b: Option<PublishDate>) -> bool {
    match (a, b) {
        (None, Some(_)) => true,
        (Some(x), Some(y)) => x.precedes(&y),
        _ => false,
    }
}

/// Neither citation date is older than the other.
pub open spec fn same_date(a: Option<PublishDate>, b: Option<PublishDate>) -> bool {
    !older(a, b) && !older(b, a)
}

/// Newest first: no citation is older than one after it.
pub open spec fn newest_first(citations: Seq<Citation>) -> bool {
    forall|i: int, j: int|
        0 <= i < j < citations.len() ==> !older(
            #[trigger] citations[i].published_spec(),
            #[trigger] citations[j].published_spec(),
        )
}

/// `after` holds the citations of `before`, the one at `i` coming from
/// position `perm[i]`, newest first, and those of the same date in their
/// former order.
pub open spec fn stable_date_sort(
    before: Seq<Citation>,
    after: Seq<Citation>,
    perm: Seq<int>,
) -> bool {
    &&& perm.len() == before.len()
    &&& after.len() == before.len()
    &&& forall|i: int|
        0 <= i < perm.len() ==> 0 <= #[trigger] perm[i] < before.len() && after[i]
            == before[perm[i]]
    &&& forall|i: int, j: int| 0 <= i < j < perm.len() ==> #[trigger] perm[i] != #[trigger] perm[j]
    &&& newest_first(after)
    &&& forall|i: int, j: int|
        0 <= i < j < after.len() && same_date(
            #[trigger] after[i].published_spec(),
            #[trigger] after[j].published_spec(),
        ) ==> perm[i] < perm[j]
}

/// Being no older is transitive.
pub proof fn lemma_not_older_transitive(
    a: Option<PublishDate>,
    b: Option<PublishDate>,
    c: Option<PublishDate>,
)
    requires
        !older(a, b),
        !older(b, c),
    ensures
        !older(a, c),
{
}

/// A date is never both older and newer than another.
pub proof fn lemma_older_asymmetric(a: Option<PublishDate>, b: Option<PublishDate>)
    requires
        older(a, b),
    ensures
        !older(b, a),
{
}

/// Order of citation dates, undated ones being the oldest.
fn is_older(a: Option<PublishDate>, b: Option<PublishDate>) -> (r: bool)
    ensures
        r == older(a, b),
{
    match (a, b) {
        (None, Some(_)) => true,
        (Some(x), Some(y)) => matches!(x.compare(&y), Ordering::Less),
        _ => false,
    }
}

/// Adding a second citation with the identifier of one just added is
/// rejected and leaves the citations as they were after the first.
pub proof fn lemma_duplicate_add_rejected(citations: Seq<Citation>, first: Citation, second: Citation)
    requires
        first.id_spec() == second.id_spec(),
    ensures
        holds_id(after_add(citations, first), second.id_spec()),
        after_add(after_add(citations, first), second) == after_add(citations, first),
{
    let once = after_add(citations, first);
    if !holds_id(citations, first.id_spec()) {
        assert(once[citations.len() as int] == first);
    }
}

/// In citations ordered newest first, undated ones come after every dated
/// one.
pub proof fn lemma_undated_last(citations: Seq<Citation>)
    requires
        newest_first(citations),
    ensures
        forall|i: int, j: int|
            0 <= i < j < citations.len() && (#[trigger] citations[i].published_spec()) is None
                ==> (#[trigger] citations[j].published_spec()) is None,
{
}

/// A collection of citations forming a bibliography
#[derive(Debug, Clone)]
pub struct Bibliography {
    citations: Vec<Citation>,
}

impl View for Bibliography {
    type V = Seq<Citation>;

    closed spec fn view(&self) -> Seq<Citation> {
        self.citations@
    }
}

impl Bibliography {
    /// Identifiers are unique.
    pub open spec fn wf(&self) -> bool {
        ids_unique(self@)
    }

    /// Create a new empty bibliography
    pub fn new() -> (r: Self)
        ensures
            r@ == Seq::<Citation>::empty(),
            r.wf(),
    {
        Bibliography { citations: Vec::new() }
    }

    /// Add a citation to the bibliography
    pub fn add_citation(&mut self, citation: Citation) -> (r: Result<(), CitationError>)
        requires
            old(self).wf(),
        ensures
            final(self).wf(),
            final(self)@ == after_add(old(self)@, citation),
            r is Ok <==> !holds_id(old(self)@, citation.id_spec()),
            r matches Err(e) ==> (e matches CitationError::DuplicateCitationId(id) && id@
                == citation.id_spec()),
    {
        let id = citation.id();
        let mut i: usize = 0;
        while i < self.citations.len()
            invariant
                self.citations@ == old(self).citations@,
                ids_unique(old(self)@),
                i <= self.citations@.len(),
                id@ == citation.id_spec(),
                forall|j: int| 0 <= j < i ==> #[trigger] self.citations@[j].id_spec() != id@,
            decreases self.citations@.len() - i,
        {
            let other = self.citations[i].id();
            if other == id {
                assert(holds_id(old(self)@, citation.id_spec())) by {
                    assert(self.citations@[i as int].id_spec() == citation.id_spec());
                }
                return Err(CitationError::DuplicateCitationId(id));
            }
            i += 1;
        }
        self.citations.push(citation);
        proof {
            assert forall|a: int, b: int|
                0 <= a < b < self@.len() implies #[trigger] self@[a].id_spec()
                != #[trigger] self@[b].id_spec() by {
                if b == self@.len() - 1 {
                    assert(old(self)@[a].id_spec() != id@);
                }
            }
        }
        Ok(())
    }

    /// Get a citation by ID
    pub fn get_citation(&self, id: &str) -> (r: Option<&Citation>)
        ensures
            r is None <==> !holds_id(self@, id@),
            r matches Some(c) ==> exists|i: int|
                0 <= i < self@.len() && self@[i] == *c && c.id_spec() == id@ && forall|j: int|
                    0 <= j < i ==> #[trigger] self@[j].id_spec() != id@,
    {
        let target = <String as StringExecFns>::from_str(id);
        let mut i: usize = 0;
        while i < self.citations.len()
            invariant
                target@ == id@,
                i <= self.citations@.len(),
                forall|j: int| 0 <= j < i ==> #[trigger] self.citations@[j].id_spec() != id@,
            decreases self.citations@.len() - i,
        {
            let other = self.citations[i].id();
            if other == target {
                assert(self@[i as int].id_spec() == id@);
                return Some(&self.citations[i]);
            }
            i += 1;
        }
        None
    }

    /// Sort citations by publication date, newest first; citations of the
    /// same date keep their order, and undated ones come last.
    pub fn sort_by_publish_date(&mut self)
        requires
            old(self).wf(),
        ensures
            final(self).wf(),
            exists|perm: Seq<int>| stable_date_sort(old(self)@, final(self)@, perm),
    {
        let mut rest: Vec<Citation> = Vec::new();
        std::mem::swap(&mut rest, &mut self.citations);
        let ghost before = rest@;
        let n = rest.len();
        let mut out: Vec<Citation> = Vec::new();
        let ghost mut perm: Seq<int> = Seq::empty();
        let mut k: usize = 0;
        while k < n
            invariant
                n == before.len(),
                ids_unique(before),
                k <= n,
                rest@ == before.subrange(k as int, n as int),
                out@.len() == k,
                perm.len() == k,
                forall|i: int|
                    0 <= i < k ==> 0 <= #[trigger] perm[i] < k && out@[i] == before[perm[i]],
                forall|i: int, j: int| 0 <= i < j < k ==> #[trigger] perm[i] != #[trigger] perm[j],
                newest_first(out@),
                forall|i: int, j: int|
                    0 <= i < j < k && same_date(
                        #[trigger] out@[i].published_spec(),
                        #[trigger] out@[j].published_spec(),
                    ) ==> perm[i] < perm[j],
            decreases n - k,
        {
            let c = rest.remove(0);
            let key = c.published();
            let mut j: usize = out.len();
            while j > 0 && is_older(out[j - 1].published(), key)
                invariant
                    j <= out@.len(),
                    forall|m: int|
                        j <= m < out@.len() ==> older(#[trigger] out@[m].published_spec(), key),
                decreases j,
            {
                j -= 1;
            }
            let ghost old_out = out@;
            let ghost old_perm = perm;
            out.insert(j, c);
            proof {
                perm = old_perm.insert(j as int, k as int);
                assert(c == before[k as int]);
                assert forall|i: int| 0 <= i < k + 1 implies 0 <= #[trigger] perm[i] < k + 1
                    && out@[i] == before[perm[i]] by {
                    if i > j {
                        assert(out@[i] == old_out[i - 1]);
                        assert(perm[i] == old_perm[i - 1]);
                    }
                }
                assert forall|a: int, b: int| 0 <= a < b < out@.len() implies !older(
                    #[trigger] out@[a].published_spec(),
                    #[trigger] out@[b].published_spec(),
                ) by {
                    if a < j && b == j {
                        if j > 0 && a < j - 1 {
                            assert(!older(old_out[a].published_spec(), old_out[j - 1].published_spec()));
                            lemma_not_older_transitive(
                                old_out[a].published_spec(),
                                old_out[j - 1].published_spec(),
                                key,
                            );
                        }
                    } else if a == j && b > j {
                        assert(older(old_out[b - 1].published_spec(), key));
                        lemma_older_asymmetric(old_out[b - 1].published_spec(), key);
                    } else if a < j && b > j {
                        assert(!older(old_out[a].published_spec(), old_out[b - 1].published_spec()));
                    } else if a > j {
                        assert(!older(old_out[a - 1].published_spec(), old_out[b - 1].published_spec()));
                    }
                }
                assert forall|a: int, b: int|
                    0 <= a < b < k + 1 && same_date(
                        #[trigger] out@[a].published_spec(),
                        #[trigger] out@[b].published_spec(),
                    ) implies perm[a] < perm[b] by {
                    if a == j && b > j {
                        assert(older(old_out[b - 1].published_spec(), key));
                    } else if a < j && b > j {
                        assert(perm[a] == old_perm[a] && perm[b] == old_perm[b - 1]);
                    } else if a > j {
                        assert(perm[a] == old_perm[a - 1] && perm[b] == old_perm[b - 1]);
                    }
                }
                assert(rest@ =~= before.subrange(k + 1, n as int));
            }
            k += 1;
        }
        proof {
            assert(stable_date_sort(before, out@, perm));
            assert forall|a: int, b: int|
                0 <= a < b < out@.len() implies #[trigger] out@[a].id_spec()
                != #[trigger] out@[b].id_spec() by {
                if perm[a] < perm[b] {
                    assert(before[perm[a]].id_spec() != before[perm[b]].id_spec());
                } else {
                    assert(before[perm[b]].id_spec() != before[perm[a]].id_spec());
                }
            }
        }
        self.citations = out;
    }

    /// Get all citations
    pub fn citations(&self) -> (r: &[Citation])
        ensures
            r@ == self@,
    {
        self.citations.as_slice()
    }
}

impl Default for Bibliography {
    fn default() -> (r: Self)
        ensures
            r@ == Seq::<Citation>::empty(),
            r.wf(),
    {
        Self::new()
    }
}

} // verus!
