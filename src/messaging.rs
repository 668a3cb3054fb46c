use vstd::prelude::*;
use vstd::utf8::encode_utf8;

use crate::store::{MessageStore, MessageView, MessagingError};
use crate::word::{Address, Uint256};

verus! {

/// A notification for indexers, recorded in the order it was raised.
#[derive(Clone, Debug, PartialEq, Eq)]
pub enum MessagingEvent {
    /// A message was stored under `id`.
    MessageSent { id: Uint256, sender: Address, content: String },
    /// Message `id` was handed to the relay, which answered with `ticket`.
    MessageBridged { id: Uint256, ticket: Uint256 },
}

/// The mathematical content of a [`MessagingEvent`].
pub enum Notification {
    Sent { id: Uint256, sender: Address, content: Seq<char> },
    Bridged { id: Uint256, ticket: Uint256 },
}

impl View for MessagingEvent {
    type V = Notification;

    open spec fn view(&self) -> Notification {
        match self {
            MessagingEvent::MessageSent { id, sender, content } => Notification::Sent {
                id: *id,
                sender: *sender,
                content: content@,
            },
            MessagingEvent::MessageBridged { id, ticket } => Notification::Bridged {
                id: *id,
                ticket: *ticket,
            },
        }
    }
}

/// What must happen at the relay for a bridge request: once every pending
/// storage write has been committed, send `payload` to `recipient` on the
/// settlement layer. The answer goes back through
/// [`MessagingContract::complete_bridge`].
#[derive(Clone, Debug, PartialEq, Eq)]
pub struct RelayRequest {
    /// The message being forwarded.
    pub id: Uint256,
    /// The settlement-layer account entitled to act on the message.
    pub recipient: Address,
    /// The message content as UTF-8 bytes.
    pub payload: Vec<u8>,
}

/// The log after a submission of `content` by `sender`, and the identifier
/// assigned (`None` when the content is empty and nothing is stored).
pub open spec fn submit_result(log: Seq<MessageView>, content: Seq<char>, sender: Address) -> (
    Seq<MessageView>,
    Option<nat>,
) {
    if content.len() == 0 {
        (log, None)
    } else {
        (log.push((content, sender)), Some(log.len()))
    }
}

/// The payload that a bridge request for `id` forwards, if `id` is assigned.
pub open spec fn relay_payload(log: Seq<MessageView>, id: Uint256) -> Option<Seq<u8>> {
    if id.value() < log.len() {
        Some(encode_utf8(log[id.value() as int].0))
    } else {
        None
    }
}

/// The log after the submissions `subs`, in order, starting from `log`, and
/// the outcome of each (see [`submit_result`]).
pub open spec fn run_submissions(log: Seq<MessageView>, subs: Seq<(Seq<char>, Address)>) -> (
    Seq<MessageView>,
    Seq<Option<nat>>,
)
    decreases subs.len(),
{
    if subs.len() == 0 {
        (log, Seq::empty())
    } else {
        let before = run_submissions(log, subs.drop_last());
        let step = submit_result(before.0, subs.last().0, subs.last().1);
        (step.0, before.1.push(step.1))
    }
}

/// Submissions of non-empty content are given consecutive identifiers in
/// call order, starting at the count before the first one, with no gaps or
/// repeats; afterwards the count has grown by the number of submissions. From
/// a fresh registry the identifiers are 0, 1, 2, ... and the count is their
/// number.
pub proof fn lemma_sequential_ids(log: Seq<MessageView>, subs: Seq<(Seq<char>, Address)>)
    requires
        forall|i: int| 0 <= i < subs.len() ==> (#[trigger] subs[i]).0.len() > 0,
    ensures
        run_submissions(log, subs).0.len() == log.len() + subs.len(),
        run_submissions(log, subs).1 == Seq::new(
            subs.len(),
            |i: int| Some((log.len() + i) as nat),
        ),
    decreases subs.len(),
{
    if subs.len() > 0 {
        let rest = subs.drop_last();
        assert forall|i: int| 0 <= i < rest.len() implies (#[trigger] rest[i]).0.len() > 0 by {
            assert(rest[i] == subs[i]);
        }
        lemma_sequential_ids(log, rest);
        assert(subs.last() == subs[subs.len() - 1]);
        assert(run_submissions(log, subs).1 =~= Seq::new(
            subs.len(),
            |i: int| Some((log.len() + i) as nat),
        ));
    }
}

/// Stored messages are never changed or removed: whatever is submitted later,
/// every message of `log` stays where it was.
pub proof fn lemma_messages_persist(log: Seq<MessageView>, subs: Seq<(Seq<char>, Address)>)
    ensures
        run_submissions(log, subs).0.len() >= log.len(),
        forall|i: int| 0 <= i < log.len() ==> #[trigger] run_submissions(log, subs).0[i] == log[i],
    decreases subs.len(),
{
    if subs.len() > 0 {
        lemma_messages_persist(log, subs.drop_last());
    }
}

/// A message reads back as it was submitted, content and sender, under the
/// identifier it was given, however many submissions follow.
pub proof fn lemma_round_trip(
    log: Seq<MessageView>,
    content: Seq<char>,
    sender: Address,
    later: Seq<(Seq<char>, Address)>,
)
    requires
        content.len() > 0,
    ensures
        submit_result(log, content, sender).1 is Some,
        ({
            let id = submit_result(log, content, sender).1->Some_0;
            let now = run_submissions(submit_result(log, content, sender).0, later).0;
            id < now.len() && now[id as int] == (content, sender)
        }),
{
    let after = submit_result(log, content, sender).0;
    lemma_messages_persist(after, later);
    assert(after[log.len() as int] == (content, sender));
}

/// The message registry: the store, and the notifications raised so far.
pub struct MessagingContract {
    store: MessageStore,
    events: Vec<MessagingEvent>,
}

impl MessagingContract {
    /// The stored messages, by identifier.
    pub closed spec fn messages(&self) -> Seq<MessageView> {
        self.store@
    }

    /// The notifications raised so far, oldest first.
    pub closed spec fn notifications(&self) -> Seq<Notification> {
        self.events@.map_values(|e: MessagingEvent| e@)
    }

    /// A freshly deployed registry: no messages, no notifications.
    pub fn new() -> (r: MessagingContract)
        ensures
            r.messages() == Seq::<MessageView>::empty(),
            r.notifications() == Seq::<Notification>::empty(),
    {
        let r = MessagingContract { store: MessageStore::new(), events: Vec::new() };
        assert(r.notifications() =~= Seq::<Notification>::empty());
        r
    }

    /// Stores `content` as sent by `sender` under the next identifier, raises
    /// `MessageSent`, and returns the identifier. Empty content is refused
    /// with `EmptyContent`, and then nothing changes.
    pub fn send_message(&mut self, content: String, sender: Address)
        -> (r: Result<Uint256, MessagingError>)
        ensures
            final(self).messages() == submit_result(old(self).messages(), content@, sender).0,
            submit_result(old(self).messages(), content@, sender).1 is None ==> {
                &&& r == Err::<Uint256, MessagingError>(MessagingError::EmptyContent)
                &&& final(self).notifications() == old(self).notifications()
            },
            submit_result(old(self).messages(), content@, sender).1 is Some ==> {
                &&& r is Ok
                &&& r->Ok_0.value() == submit_result(old(self).messages(), content@, sender).1->Some_0
                &&& final(self).notifications() == old(self).notifications().push(
                    Notification::Sent { id: r->Ok_0, sender, content: content@ },
                )
            },
    {
        let copy = content.clone();
        match self.store.submit(content, sender) {
            Ok(id) => {
                let ev = MessagingEvent::MessageSent { id, sender, content: copy };
                self.events.push(ev);
                assert(self.notifications() =~= old(self).notifications().push(ev@));
                Ok(id)
            },
            Err(e) => Err(e),
        }
    }

    /// The content of message `id`, or `NotFound(id)` when `id` is at or
    /// beyond the count.
    pub fn get_message(&self, id: Uint256) -> (r: Result<String, MessagingError>)
        ensures
            id.value() >= self.messages().len() ==> r == Err::<String, MessagingError>(
                MessagingError::NotFound(id),
            ),
            id.value() < self.messages().len() ==> r is Ok && r->Ok_0@ == self.messages()[id.value() as int].0,
    {
        match self.store.get_content(id) {
            Ok(c) => Ok(c.clone()),
            Err(e) => Err(e),
        }
    }

    /// The account that sent message `id`, or `NotFound(id)` when `id` is at
    /// or beyond the count.
    pub fn get_sender(&self, id: Uint256) -> (r: Result<Address, MessagingError>)
        ensures
            id.value() >= self.messages().len() ==> r == Err::<Address, MessagingError>(
                MessagingError::NotFound(id),
            ),
            id.value() < self.messages().len() ==> r == Ok::<Address, MessagingError>(
                self.messages()[id.value() as int].1,
            ),
    {
        self.store.get_sender(id)
    }

    /// The number of messages stored, which is also the next identifier.
    pub fn message_count(&self) -> (r: Uint256)
        ensures
            r.value() == self.messages().len(),
    {
        Uint256::from_usize(self.store.count())
    }

    /// Decides a bridge request for message `id` made by `caller`, who is
    /// also the recipient on the settlement layer.
    ///
    /// The existence check comes first: for an unassigned `id` the answer is
    /// `NotFound(id)` and no request for the relay is produced. Otherwise the
    /// content is read and returned as the request that the host carries out,
    /// after committing its pending writes.
    pub fn bridge_message(&self, id: Uint256, caller: Address)
        -> (r: Result<RelayRequest, MessagingError>)
        ensures
            relay_payload(self.messages(), id) is None ==> r == Err::<RelayRequest, MessagingError>(
                MessagingError::NotFound(id),
            ),
            relay_payload(self.messages(), id) is Some ==> {
                &&& r is Ok
                &&& r->Ok_0.id == id
                &&& r->Ok_0.recipient == caller
                &&& r->Ok_0.payload@ == relay_payload(self.messages(), id)->Some_0
            },
    {
        match self.store.get_content(id) {
            Ok(content) => {
                let payload = vstd::slice::slice_to_vec(content.as_str().as_bytes());
                Ok(RelayRequest { id, recipient: caller, payload })
            },
            Err(e) => Err(e),
        }
    }

    /// Takes the relay's answer to `request`. A ticket raises
    /// `MessageBridged`; a failure is reported as `RelayCallFailed` with the
    /// relay's diagnostic and raises nothing. The messages never change, so a
    /// failed forward can be asked for again.
    pub fn complete_bridge(
        &mut self,
        request: &RelayRequest,
        outcome: Result<Uint256, Vec<u8>>,
    ) -> (r: Result<(), MessagingError>)
        ensures
            final(self).messages() == old(self).messages(),
            outcome is Ok ==> {
                &&& r is Ok
                &&& final(self).notifications() == old(self).notifications().push(
                    Notification::Bridged { id: request.id, ticket: outcome->Ok_0 },
                )
            },
            outcome is Err ==> {
                &&& r matches Err(MessagingError::RelayCallFailed(reason)) && reason@ == outcome->Err_0@
                &&& final(self).notifications() == old(self).notifications()
            },
    {
        match outcome {
            Ok(ticket) => {
                let ev = MessagingEvent::MessageBridged { id: request.id, ticket };
                self.events.push(ev);
                assert(self.notifications() =~= old(self).notifications().push(ev@));
                Ok(())
            },
            Err(reason) => Err(MessagingError::RelayCallFailed(reason)),
        }
    }

    /// The notifications raised so far, oldest first.
    pub fn events(&self) -> (r: &Vec<MessagingEvent>)
        ensures
            r@.map_values(|e: MessagingEvent| e@) == self.notifications(),
    {
        &self.events
    }
}

} // verus!
