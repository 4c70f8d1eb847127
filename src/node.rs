use vstd::prelude::*;
use crate::command::{Command, CommandView, CreateError, command_spec, parse_command};
use crate::model::{ListMode, ListModeView, ListRequest, ListResponse, Message, NftInfo, items_view};
use crate::peers::{PeerSet, after_appeared, after_disappeared};
use crate::store::NftStore;

verus! {

/// A payload of the topic once decoding has been tried.
#[derive(Debug)]
pub enum Inbound {
    Response(ListResponse),
    Request(ListRequest),
    Malformed,
}

/// Picks the reading of a payload: a response where it decoded as one, else a
/// request where it decoded as one, else nothing.
pub fn classify(as_response: Option<ListResponse>, as_request: Option<ListRequest>) -> (r: Inbound)
    ensures
        as_response matches Some(resp) ==> r == Inbound::Response(resp),
        as_response is None ==> (as_request matches Some(req) ==> r == Inbound::Request(req)),
        as_response is None && as_request is None ==> r is Malformed,
{
    match as_response {
        Some(resp) => Inbound::Response(resp),
        None => match as_request {
            Some(req) => Inbound::Request(req),
            None => Inbound::Malformed,
        },
    }
}

/// The one thing the dispatch loop does in answer to an event.
#[derive(Debug)]
pub enum Action {
    /// Encode the message and publish it on the topic.
    Publish(Message),
    /// Report the peers that discovery currently sees.
    ShowPeers,
    /// Report these local records.
    ShowLocal(Vec<NftInfo>),
    /// Report a response addressed to this node.
    ShowResponse { source: String, response: ListResponse },
    /// Answer `receiver` with every local record, off the control thread.
    RespondAll { receiver: String },
    /// Answer `receiver` with the local records of a collection, off the control thread.
    RespondCollection { receiver: String, collection_name: String },
    /// Report that this record was added to the store.
    Created(NftInfo),
    /// Report a refused create command.
    CreateFailed(CreateError),
    /// Report an unknown command.
    UnknownCommand,
    /// Add the peer to the topic's partial view.
    AddToView(String),
    /// Remove the peer from the topic's partial view.
    RemoveFromView(String),
    /// Nothing to do.
    Ignore,
}

/// Carries out one line of operator input. Only a create command changes the
/// store, and it never leads to a publication.
pub fn handle_command(line: &str, store: &mut NftStore) -> (r: Action)
    ensures
        !(command_spec(line@) is Create) ==> final(store)@ == old(store)@,
        match command_spec(line@) {
            CommandView::ListPeers => r is ShowPeers,
            CommandView::GetAll => r matches Action::Publish(Message::Request(q)) && q.mode@
                == ListModeView::All,
            CommandView::GetCollection(name) => r matches Action::Publish(Message::Request(q))
                && q.mode@ == ListModeView::Collection(name),
            CommandView::GetLocal => r matches Action::ShowLocal(v)
                && items_view(v@) == old(store)@,
            CommandView::Create(item) => r matches Action::Created(i) && i@ == item
                && final(store)@ == old(store)@.push(item),
            CommandView::CreateFailed(e) => r == Action::CreateFailed(e),
            CommandView::Unknown => r is UnknownCommand,
        },
{
    match parse_command(line) {
        Command::ListPeers => Action::ShowPeers,
        Command::GetAll => Action::Publish(Message::Request(ListRequest { mode: ListMode::All })),
        Command::GetCollection(name) => Action::Publish(
            Message::Request(ListRequest { mode: ListMode::Collection(name) }),
        ),
        Command::GetLocal => Action::ShowLocal(store.snapshot()),
        Command::Create(item) => {
            let shown = item.duplicate();
            store.append(item);
            Action::Created(shown)
        },
        Command::CreateFailed(e) => Action::CreateFailed(e),
        Command::Unknown => Action::UnknownCommand,
    }
}

/// The decisions of one node: its own identity and the peers that its
/// broadcasts are aimed at.
pub struct Node {
    self_id: String,
    view: PeerSet,
}

impl Node {
    pub closed spec fn wf(&self) -> bool {
        self.view.wf()
    }

    /// This node's identity.
    pub closed spec fn id(&self) -> Seq<char> {
        self.self_id@
    }

    /// The topic's partial view.
    pub closed spec fn partial_view(&self) -> Set<Seq<char>> {
        self.view@
    }

    pub fn new(self_id: String) -> (r: Node)
        ensures
            r.wf(),
            r.id() == self_id@,
            r.partial_view() == Set::<Seq<char>>::empty(),
    {
        Node { self_id, view: PeerSet::new() }
    }

    pub fn self_id(&self) -> (r: &String)
        ensures
            r@ == self.id(),
    {
        &self.self_id
    }

    pub fn in_partial_view(&self, peer: &str) -> (r: bool)
        ensures
            r == self.partial_view().contains(peer@),
    {
        self.view.contains(peer)
    }

    /// Acts on a payload that `source` published on the topic. A response
    /// reaches the operator only where it is addressed to this node; a
    /// request is answered to its sender, in its own scope.
    pub fn on_inbound(&self, source: String, inbound: Inbound) -> (r: Action)
        ensures
            r matches Action::ShowResponse { response, .. } ==> response.receiver@ == self.id(),
            match inbound {
                Inbound::Response(resp) => if resp.receiver@ == self.id() {
                    r matches Action::ShowResponse { source: s, response } && s@ == source@
                        && response@ == resp@
                } else {
                    r is Ignore
                },
                Inbound::Request(req) => match req.mode@ {
                    ListModeView::All => r matches Action::RespondAll { receiver } && receiver@
                        == source@,
                    ListModeView::Collection(name) => r matches Action::RespondCollection {
                        receiver,
                        collection_name,
                    } && receiver@ == source@ && collection_name@ == name,
                },
                Inbound::Malformed => r is Ignore,
            },
    {
        match inbound {
            Inbound::Response(resp) => {
                if resp.receiver == self.self_id {
                    Action::ShowResponse { source, response: resp }
                } else {
                    Action::Ignore
                }
            },
            Inbound::Request(req) => match req.mode {
                ListMode::All => Action::RespondAll { receiver: source },
                ListMode::Collection(collection_name) => Action::RespondCollection {
                    receiver: source,
                    collection_name,
                },
            },
            Inbound::Malformed => Action::Ignore,
        }
    }

    /// Acts on a response that the responder queued: it is published unless
    /// it names no receiver.
    pub fn on_outgoing(&self, resp: ListResponse) -> (r: Action)
        ensures
            resp.receiver@.len() > 0 ==> (r matches Action::Publish(Message::Response(m))
                && m@ == resp@),
            resp.receiver@.len() == 0 ==> r is Ignore,
    {
        if resp.receiver.as_str().unicode_len() > 0 {
            Action::Publish(Message::Response(resp))
        } else {
            Action::Ignore
        }
    }

    /// Discovery saw `peer`: it joins the partial view.
    pub fn on_appeared(&mut self, peer: String) -> (r: Action)
        requires
            old(self).wf(),
        ensures
            final(self).wf(),
            final(self).id() == old(self).id(),
            final(self).partial_view() == after_appeared(old(self).partial_view(), peer@),
            r matches Action::AddToView(p) && p@ == peer@,
    {
        let shown = peer.clone();
        self.view.insert(peer);
        Action::AddToView(shown)
    }

    /// Discovery lost `peer`: it leaves the partial view unless discovery
    /// still sees it.
    pub fn on_disappeared(&mut self, peer: String, still_visible: bool) -> (r: Action)
        requires
            old(self).wf(),
        ensures
            final(self).wf(),
            final(self).id() == old(self).id(),
            final(self).partial_view() == after_disappeared(
                old(self).partial_view(),
                peer@,
                still_visible,
            ),
            still_visible ==> r is Ignore,
            !still_visible ==> (r matches Action::RemoveFromView(p) && p@ == peer@),
    {
        self.view.remove_unless_visible(peer.as_str(), still_visible);
        if still_visible {
            Action::Ignore
        } else {
            Action::RemoveFromView(peer)
        }
    }
}

/// A peer that appeared and then disappeared, with discovery no longer
/// seeing it, is out of the partial view, whatever the view held before.
pub proof fn law_gone_peer_leaves_view(view: Set<Seq<char>>, peer: Seq<char>)
    ensures
        !after_disappeared(after_appeared(view, peer), peer, false).contains(peer),
{
}

/// A peer that appeared is in the partial view.
pub proof fn law_appeared_peer_joins_view(view: Set<Seq<char>>, peer: Seq<char>)
    ensures
        after_appeared(view, peer).contains(peer),
{
}

} // verus!
