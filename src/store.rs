use vstd::prelude::*;
use crate::model::{NftInfo, NftInfoView, items_view, duplicate_items};

verus! {

/// The local, append-only sequence of records.
pub struct NftStore {
    items: Vec<NftInfo>,
}

impl View for NftStore {
    type V = Seq<NftInfoView>;

    closed spec fn view(&self) -> Seq<NftInfoView> {
        items_view(self.items@)
    }
}

impl NftStore {
    pub fn new() -> (r: NftStore)
        ensures
            r@ == Seq::<NftInfoView>::empty(),
    {
        let r = NftStore { items: Vec::new() };
        assert(r@ =~= Seq::<NftInfoView>::empty());
        r
    }

    pub fn len(&self) -> (r: usize)
        ensures
            r == self@.len(),
    {
        self.items.len()
    }

    /// Adds one record at the end.
    pub fn append(&mut self, item: NftInfo)
        ensures
            final(self)@ == old(self)@.push(item@),
    {
        self.items.push(item);
        assert(final(self)@ =~= old(self)@.push(item@));
    }

    /// A copy of every record, in order.
    pub fn snapshot(&self) -> (r: Vec<NftInfo>)
        ensures
            items_view(r@) == self@,
    {
        duplicate_items(&self.items)
    }
}

} // verus!
