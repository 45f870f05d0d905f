//! The aggregator's model catalog: what a reply to the listing request
//! means, and in which order its entries are offered.

use crate::text::{lemma_lex_asymmetric, lemma_lex_transitive, lex_less, text_before};
use vstd::prelude::*;

verus! {

/// A model that the aggregator lists.
#[derive(Debug, PartialEq, Eq)]
pub struct OpenRouterModel {
    /// The identifier under which the model is requested.
    pub id: String,
    /// The size of the model's context window in tokens, where it is known.
    pub context_length: Option<i32>,
}

/// What an [`OpenRouterModel`] stands for.
pub struct CatalogEntry {
    pub id: Seq<char>,
    pub context_length: Option<i32>,
}

impl View for OpenRouterModel {
    type V = CatalogEntry;

    open spec fn view(&self) -> CatalogEntry {
        CatalogEntry { id: self.id@, context_length: self.context_length }
    }
}

impl Clone for OpenRouterModel {
    fn clone(&self) -> (copy: OpenRouterModel)
        ensures
            copy@ == self@,
    {
        OpenRouterModel { id: self.id.clone(), context_length: self.context_length }
    }
}

/// The entries that a list of models stands for.
pub open spec fn entries_of(models: Seq<OpenRouterModel>) -> Seq<CatalogEntry> {
    models.map_values(|m: OpenRouterModel| m@)
}

/// Why the catalog could not be had.
#[derive(Debug, PartialEq, Eq)]
pub enum CatalogError {
    /// The request did not complete; the text says why.
    NetworkError(String),
    /// The server answered with a status other than success.
    RemoteError { status: u16, body: String },
    /// The answer was not a list of models; the text says why.
    DecodeError(String),
}

/// What came back from the listing request.
#[derive(Debug, PartialEq, Eq)]
pub enum CatalogResponse {
    /// The request did not complete; the text says why.
    Unreachable(String),
    /// The server answered with this status and body. `decoded` holds the
    /// models read from the body, or why none could be read.
    Answered { status: u16, body: String, decoded: Result<Vec<OpenRouterModel>, String> },
}

/// Whether an HTTP status reports success.
pub open spec fn is_success(status: u16) -> bool {
    200 <= status < 300
}

/// An entry is offered when it has an identifier and a known context length.
pub open spec fn listable(entry: CatalogEntry) -> bool {
    entry.context_length is Some && entry.id.len() > 0
}

/// The entries that are offered, in the order in which they came.
pub open spec fn listable_entries(entries: Seq<CatalogEntry>) -> Seq<CatalogEntry>
    decreases entries.len(),
{
    if entries.len() == 0 {
        Seq::empty()
    } else if listable(entries.last()) {
        listable_entries(entries.drop_last()).push(entries.last())
    } else {
        listable_entries(entries.drop_last())
    }
}

/// No entry stands before one whose identifier comes before its own.
pub open spec fn ascending(entries: Seq<CatalogEntry>) -> bool {
    forall|i: int, j: int|
        0 <= i < j < entries.len() ==> !lex_less(
            (#[trigger] entries[j]).id,
            (#[trigger] entries[i]).id,
        )
}

/// `sorted` with `entry` put behind the last entry whose identifier does
/// not come after its own.
pub open spec fn placed(sorted: Seq<CatalogEntry>, entry: CatalogEntry) -> Seq<CatalogEntry>
    decreases sorted.len(),
{
    if sorted.len() > 0 && lex_less(entry.id, sorted.last().id) {
        placed(sorted.drop_last(), entry).push(sorted.last())
    } else {
        sorted.push(entry)
    }
}

/// The entries in ascending order of their identifiers; entries with the
/// same identifier keep the order in which they came.
pub open spec fn sorted_by_id(entries: Seq<CatalogEntry>) -> Seq<CatalogEntry>
    decreases entries.len(),
{
    if entries.len() == 0 {
        Seq::empty()
    } else {
        placed(sorted_by_id(entries.drop_last()), entries.last())
    }
}

/// The entries as they are offered for selection: those that can be
/// offered, in ascending order of their identifiers.
pub open spec fn presented(entries: Seq<CatalogEntry>) -> Seq<CatalogEntry> {
    sorted_by_id(listable_entries(entries))
}

/// Placing an entry is inserting it at the position `at`, when every entry
/// from there on comes after it and the one before does not.
pub proof fn lemma_placed_at(sorted: Seq<CatalogEntry>, entry: CatalogEntry, at: int)
    requires
        0 <= at <= sorted.len(),
        forall|k: int| at <= k < sorted.len() ==> lex_less(entry.id, (#[trigger] sorted[k]).id),
        at > 0 ==> !lex_less(entry.id, sorted[at - 1].id),
    ensures
        placed(sorted, entry) == sorted.insert(at, entry),
    decreases sorted.len(),
{
    if at < sorted.len() {
        let front = sorted.drop_last();
        lemma_placed_at(front, entry, at);
        assert(front.insert(at, entry).push(sorted.last()) =~= sorted.insert(at, entry));
    } else {
        assert(sorted.insert(at, entry) =~= sorted.push(entry));
    }
}

/// Placing an entry keeps the order and adds exactly that entry.
pub proof fn lemma_placed(sorted: Seq<CatalogEntry>, entry: CatalogEntry)
    requires
        ascending(sorted),
    ensures
        ascending(placed(sorted, entry)),
        placed(sorted, entry).len() == sorted.len() + 1,
        placed(sorted, entry).to_multiset() == sorted.to_multiset().insert(entry),
    decreases sorted.len(),
{
    broadcast use {vstd::seq_lib::to_multiset_build, vstd::seq_lib::to_multiset_contains};

    let result = placed(sorted, entry);
    if sorted.len() > 0 && lex_less(entry.id, sorted.last().id) {
        // The entry goes somewhere into the front, and the last entry stays last.
        let front = sorted.drop_last();
        let last = sorted.last();
        lemma_placed(front, entry);
        let inner = placed(front, entry);
        assert(sorted =~= front.push(last));
        assert forall|i: int, j: int| 0 <= i < j < result.len() implies !lex_less(
            (#[trigger] result[j]).id,
            (#[trigger] result[i]).id,
        ) by {
            if j == inner.len() {
                // `inner[i]` is the new entry or one of the front.
                assert(inner.to_multiset().count(inner[i]) > 0);
                if inner[i] == entry {
                    lemma_lex_asymmetric(entry.id, last.id);
                } else {
                    assert(front.contains(inner[i]));
                }
            }
        }
    } else {
        // The entry goes behind all the others.
        assert forall|i: int, j: int| 0 <= i < j < result.len() implies !lex_less(
            (#[trigger] result[j]).id,
            (#[trigger] result[i]).id,
        ) by {
            if j == sorted.len() && i < sorted.len() - 1 {
                lemma_lex_transitive(sorted[i].id, sorted.last().id, entry.id);
            }
        }
    }
}

/// Sorting gives an ascending sequence with the same entries.
pub proof fn lemma_sorted_by_id(entries: Seq<CatalogEntry>)
    ensures
        ascending(sorted_by_id(entries)),
        sorted_by_id(entries).len() == entries.len(),
        sorted_by_id(entries).to_multiset() == entries.to_multiset(),
    decreases entries.len(),
{
    broadcast use vstd::seq_lib::to_multiset_build;

    if entries.len() > 0 {
        lemma_sorted_by_id(entries.drop_last());
        lemma_placed(sorted_by_id(entries.drop_last()), entries.last());
        assert(entries =~= entries.drop_last().push(entries.last()));
    } else {
        assert(entries =~= Seq::empty());
    }
}

/// Every entry that is offered can be offered, and came with the reply.
pub proof fn lemma_listable_entries(entries: Seq<CatalogEntry>)
    ensures
        forall|i: int|
            0 <= i < listable_entries(entries).len() ==> listable(
                #[trigger] listable_entries(entries)[i],
            ) && entries.contains(listable_entries(entries)[i]),
        forall|i: int|
            0 <= i < entries.len() && listable(#[trigger] entries[i]) ==> listable_entries(
                entries,
            ).contains(entries[i]),
    decreases entries.len(),
{
    if entries.len() > 0 {
        let front = entries.drop_last();
        lemma_listable_entries(front);
        let kept = listable_entries(entries);
        let kept_front = listable_entries(front);
        assert forall|i: int| 0 <= i < kept.len() implies listable(#[trigger] kept[i])
            && entries.contains(kept[i]) by {
            if i < kept_front.len() {
                let k = choose|k: int| 0 <= k < front.len() && front[k] == kept_front[i];
                assert(entries[k] == kept[i]);
            } else {
                assert(entries[entries.len() - 1] == kept[i]);
            }
        }
        assert forall|i: int| 0 <= i < entries.len() && listable(
            #[trigger] entries[i],
        ) implies kept.contains(entries[i]) by {
            if i < front.len() {
                let k = choose|k: int| 0 <= k < kept_front.len() && kept_front[k] == front[i];
                assert(kept[k] == entries[i]);
            } else {
                assert(kept[kept.len() - 1] == entries[i]);
            }
        }
    }
}

/// Puts `model` into `sorted` behind the last model whose identifier does
/// not come after its own.
fn place(sorted: &mut Vec<OpenRouterModel>, model: OpenRouterModel)
    requires
        ascending(entries_of(old(sorted)@)),
    ensures
        entries_of(final(sorted)@) == placed(entries_of(old(sorted)@), model@),
{
    let mut at: usize = sorted.len();
    while at > 0 && text_before(model.id.as_str(), sorted[at - 1].id.as_str())
        invariant
            at <= sorted@.len(),
            forall|k: int|
                at <= k < sorted@.len() ==> lex_less(model.id@, (#[trigger] sorted@[k]).id@),
        decreases at,
    {
        at -= 1;
    }
    proof {
        let before = entries_of(sorted@);
        lemma_placed_at(before, model@, at as int);
        assert(entries_of(sorted@.insert(at as int, model)) =~= before.insert(at as int, model@));
    }
    sorted.insert(at, model);
}

/// The models that can be offered: those with an identifier and a known
/// context length, in the order in which they came.
pub fn keep_listable(models: Vec<OpenRouterModel>) -> (kept: Vec<OpenRouterModel>)
    ensures
        entries_of(kept@) == listable_entries(entries_of(models@)),
        forall|i: int| 0 <= i < kept@.len() ==> listable(#[trigger] kept@[i]@),
{
    let mut kept: Vec<OpenRouterModel> = Vec::new();
    let ghost all = entries_of(models@);
    for model in it: models
        invariant
            entries_of(it.seq()) == all,
            entries_of(kept@) == listable_entries(all.subrange(0, it.index() as int)),
    {
        let ghost before = all.subrange(0, it.index() as int);
        let ghost after = all.subrange(0, it.index() + 1);
        assert(after.drop_last() =~= before);
        if model.context_length.is_some() && !model.id.as_str().is_empty() {
            kept.push(model);
        }
    }
    proof {
        assert(all.subrange(0, all.len() as int) =~= all);
        lemma_listable_entries(all);
        assert forall|i: int| 0 <= i < kept@.len() implies listable(#[trigger] kept@[i]@) by {
            assert(entries_of(kept@)[i] == kept@[i]@);
        }
    }
    kept
}

/// The models in ascending order of their identifiers; models with the
/// same identifier keep the order in which they came.
pub fn sort_by_id(models: Vec<OpenRouterModel>) -> (sorted: Vec<OpenRouterModel>)
    ensures
        entries_of(sorted@) == sorted_by_id(entries_of(models@)),
        ascending(entries_of(sorted@)),
        entries_of(sorted@).to_multiset() == entries_of(models@).to_multiset(),
{
    let mut sorted: Vec<OpenRouterModel> = Vec::new();
    let ghost all = entries_of(models@);
    for model in it: models
        invariant
            entries_of(it.seq()) == all,
            entries_of(sorted@) == sorted_by_id(all.subrange(0, it.index() as int)),
    {
        let ghost before = all.subrange(0, it.index() as int);
        let ghost after = all.subrange(0, it.index() + 1);
        assert(after.drop_last() =~= before);
        proof {
            lemma_sorted_by_id(before);
        }
        place(&mut sorted, model);
    }
    proof {
        assert(all.subrange(0, all.len() as int) =~= all);
        lemma_sorted_by_id(all);
    }
    sorted
}

/// The models as they are offered for selection: those with an identifier
/// and a known context length, in ascending order of their identifiers.
pub fn present(models: Vec<OpenRouterModel>) -> (offered: Vec<OpenRouterModel>)
    ensures
        entries_of(offered@) == presented(entries_of(models@)),
        ascending(entries_of(offered@)),
        entries_of(offered@).to_multiset() == listable_entries(entries_of(models@)).to_multiset(),
        forall|i: int| 0 <= i < offered@.len() ==> listable(#[trigger] offered@[i]@),
{
    let kept = keep_listable(models);
    let offered = sort_by_id(kept);
    proof {
        // Each model that is offered is one of those that were kept.
        assert forall|i: int| 0 <= i < offered@.len() implies listable(#[trigger] offered@[i]@) by {
            broadcast use vstd::seq_lib::to_multiset_contains;

            let entry = entries_of(offered@)[i];
            assert(entries_of(kept@).to_multiset().count(entry) > 0);
            let k = choose|k: int|
                0 <= k < entries_of(kept@).len() && entries_of(kept@)[k] == entry;
            assert(kept@[k]@ == entry);
        }
    }
    offered
}

/// What the reply to the listing request comes to: the models as they are
/// offered for selection, or why there are none.
pub fn fetch_openrouter_models(response: CatalogResponse) -> (listed: Result<
    Vec<OpenRouterModel>,
    CatalogError,
>)
    ensures
        match response {
            CatalogResponse::Unreachable(reason) => listed matches Err(
                CatalogError::NetworkError(why),
            ) && why@ == reason@,
            CatalogResponse::Answered { status, body, decoded } => if !is_success(status) {
                listed matches Err(CatalogError::RemoteError { status: code, body: text })
                    && code == status && text@ == body@
            } else {
                match decoded {
                    Err(reason) => listed matches Err(CatalogError::DecodeError(why)) && why@
                        == reason@,
                    Ok(models) => listed matches Ok(offered) && entries_of(offered@) == presented(
                        entries_of(models@),
                    ),
                }
            },
        },
{
    match response {
        CatalogResponse::Unreachable(reason) => Err(CatalogError::NetworkError(reason)),
        CatalogResponse::Answered { status, body, decoded } => {
            if status < 200 || status >= 300 {
                Err(CatalogError::RemoteError { status, body })
            } else {
                match decoded {
                    Err(reason) => Err(CatalogError::DecodeError(reason)),
                    Ok(models) => Ok(present(models)),
                }
            }
        },
    }
}

} // verus!
