use vstd::prelude::*;
use crate::model::{ListMode, ListModeView, ListResponse, ListResponseView, NftInfo, NftInfoView, items_view};
use crate::store::NftStore;
use crate::text::{eq_ignore_ascii_case, eq_ignore_ascii_case_spec};

verus! {

/// The records of `items` whose collection is `name`, ASCII case aside, in order.
pub open spec fn filter_collection(items: Seq<NftInfoView>, name: Seq<char>) -> Seq<NftInfoView> {
    items.filter(|i: NftInfoView| eq_ignore_ascii_case_spec(i.collection_name, name))
}

/// Every record of a collection answer is of that collection, ASCII case
/// aside, and every record of the store that is of it is in the answer; the
/// answer is empty exactly where no record of the store is of it.
pub proof fn law_collection_answer_is_the_matching_records(items: Seq<NftInfoView>, name: Seq<char>)
    ensures
        forall|k: int|
            0 <= k < filter_collection(items, name).len() ==> eq_ignore_ascii_case_spec(
                (#[trigger] filter_collection(items, name)[k]).collection_name,
                name,
            ),
        forall|k: int|
            0 <= k < items.len() && eq_ignore_ascii_case_spec(items[k].collection_name, name)
                ==> #[trigger] filter_collection(items, name).contains(items[k]),
        filter_collection(items, name).len() == 0 <==> forall|k: int|
            0 <= k < items.len() ==> !eq_ignore_ascii_case_spec(
                (#[trigger] items[k]).collection_name,
                name,
            ),
{
    broadcast use vstd::seq_lib::group_filter_ensures;

    let pred = |i: NftInfoView| eq_ignore_ascii_case_spec(i.collection_name, name);
    let f = filter_collection(items, name);
    if f.len() > 0 {
        assert(f.contains(f[0]));
        items.lemma_filter_contains_rev(pred, f[0]);
        assert(pred(f[0]));
    }
    if exists|k: int| 0 <= k < items.len() && pred(items[k]) {
        let k = choose|k: int| 0 <= k < items.len() && pred(items[k]);
        assert(f.contains(items[k]));
    }
}

/// The answer to a query for every record: all of the store, in order.
pub fn respond_all(store: &NftStore, receiver: String) -> (r: ListResponse)
    ensures
        r@ == (ListResponseView { mode: ListModeView::All, data: store@, receiver: receiver@ }),
{
    ListResponse { mode: ListMode::All, data: store.snapshot(), receiver }
}

/// The records of `items` in the collection `name`.
pub fn select_collection(items: &Vec<NftInfo>, name: &str) -> (r: Vec<NftInfo>)
    ensures
        items_view(r@) == filter_collection(items_view(items@), name@),
{
    let mut r: Vec<NftInfo> = Vec::new();
    let mut i: usize = 0;
    while i < items.len()
        invariant
            i <= items@.len(),
            items_view(r@) == filter_collection(items_view(items@.subrange(0, i as int)), name@),
        decreases items@.len() - i,
    {
        let ghost before = items_view(items@.subrange(0, i as int));
        let ghost after = items_view(items@.subrange(0, i + 1 as int));
        assert(after.drop_last() =~= before);
        assert(after.last() == items@[i as int]@);
        let ghost keep = eq_ignore_ascii_case_spec(items@[i as int]@.collection_name, name@);
        proof {
            reveal(Seq::filter);
        }
        assert(filter_collection(after, name@) == if keep {
            filter_collection(before, name@).push(items@[i as int]@)
        } else {
            filter_collection(before, name@)
        });
        if eq_ignore_ascii_case(items[i].collection_name.as_str(), name) {
            let ghost old_r = r@;
            r.push(items[i].duplicate());
            assert(items_view(r@) =~= items_view(old_r).push(items@[i as int]@));
        }
        i = i + 1;
    }
    assert(items@.subrange(0, i as int) =~= items@);
    r
}

/// The answer to a query for one collection, or none where the store holds
/// no record of it.
pub fn respond_collection(store: &NftStore, receiver: String, collection_name: String) -> (r:
    Option<ListResponse>)
    ensures
        r is None <==> filter_collection(store@, collection_name@).len() == 0,
        r matches Some(resp) ==> resp@ == (ListResponseView {
            mode: ListModeView::Collection(collection_name@),
            data: filter_collection(store@, collection_name@),
            receiver: receiver@,
        }),
{
    let items = store.snapshot();
    let data = select_collection(&items, collection_name.as_str());
    if data.len() > 0 {
        Some(ListResponse { mode: ListMode::Collection(collection_name), data, receiver })
    } else {
        None
    }
}

} // verus!
