use vstd::prelude::*;

verus! {

/// One NFT metadata record.
#[derive(Debug)]
pub struct NftInfo {
    pub collection_name: String,
    pub item_id: u32,
    pub description: String,
    pub owner: String,
}

/// The mathematical value of an `NftInfo`.
pub struct NftInfoView {
    pub collection_name: Seq<char>,
    pub item_id: u32,
    pub description: Seq<char>,
    pub owner: Seq<char>,
}

impl View for NftInfo {
    type V = NftInfoView;

    open spec fn view(&self) -> NftInfoView {
        NftInfoView {
            collection_name: self.collection_name@,
            item_id: self.item_id,
            description: self.description@,
            owner: self.owner@,
        }
    }
}

/// The values of a sequence of records.
pub open spec fn items_view(items: Seq<NftInfo>) -> Seq<NftInfoView> {
    items.map_values(|i: NftInfo| i@)
}

impl NftInfo {
    pub fn new(collection_name: String, item_id: u32, description: String, owner: String) -> (r:
        NftInfo)
        ensures
            r@ == (NftInfoView {
                collection_name: collection_name@,
                item_id,
                description: description@,
                owner: owner@,
            }),
    {
        NftInfo { collection_name, item_id, description, owner }
    }

    /// A copy with the same value.
    pub fn duplicate(&self) -> (r: NftInfo)
        ensures
            r@ == self@,
    {
        NftInfo {
            collection_name: self.collection_name.clone(),
            item_id: self.item_id,
            description: self.description.clone(),
            owner: self.owner.clone(),
        }
    }
}

/// Copies a sequence of records, element by element.
pub fn duplicate_items(items: &Vec<NftInfo>) -> (r: Vec<NftInfo>)
    ensures
        items_view(r@) == items_view(items@),
{
    let mut r: Vec<NftInfo> = Vec::new();
    let mut i: usize = 0;
    while i < items.len()
        invariant
            i <= items@.len(),
            r@.len() == i,
            forall|j: int| 0 <= j < i ==> (#[trigger] r@[j])@ == items@[j]@,
        decreases items@.len() - i,
    {
        let c = items[i].duplicate();
        r.push(c);
        i = i + 1;
    }
    assert(items_view(r@) =~= items_view(items@));
    r
}

/// The scope of a listing query.
#[derive(Debug)]
pub enum ListMode {
    All,
    Collection(String),
}

pub enum ListModeView {
    All,
    Collection(Seq<char>),
}

impl View for ListMode {
    type V = ListModeView;

    open spec fn view(&self) -> ListModeView {
        match self {
            ListMode::All => ListModeView::All,
            ListMode::Collection(name) => ListModeView::Collection(name@),
        }
    }
}

impl ListMode {
    /// A copy with the same value.
    pub fn duplicate(&self) -> (r: ListMode)
        ensures
            r@ == self@,
    {
        match self {
            ListMode::All => ListMode::All,
            ListMode::Collection(name) => ListMode::Collection(name.clone()),
        }
    }
}

/// A query broadcast to every peer on the topic.
#[derive(Debug)]
pub struct ListRequest {
    pub mode: ListMode,
}

/// An answer to a query, addressed to the peer that asked.
#[derive(Debug)]
pub struct ListResponse {
    pub mode: ListMode,
    pub data: Vec<NftInfo>,
    pub receiver: String,
}

pub struct ListResponseView {
    pub mode: ListModeView,
    pub data: Seq<NftInfoView>,
    pub receiver: Seq<char>,
}

impl View for ListResponse {
    type V = ListResponseView;

    open spec fn view(&self) -> ListResponseView {
        ListResponseView { mode: self.mode@, data: items_view(self.data@), receiver: self.receiver@ }
    }
}

/// A payload of the topic, as either shape.
#[derive(Debug)]
pub enum Message {
    Request(ListRequest),
    Response(ListResponse),
}

} // verus!
