use vstd::prelude::*;

use crate::word::{Address, Uint256};

verus! {

/// Why an operation of the registry failed.
#[derive(Clone, Debug, PartialEq, Eq)]
pub enum MessagingError {
    /// A submission carried no content; nothing was stored.
    EmptyContent,
    /// The identifier has not been assigned yet.
    NotFound(Uint256),
    /// The relay refused or failed the forward; its diagnostic, unread.
    RelayCallFailed(Vec<u8>),
}

/// One stored message: its content and the account that submitted it.
pub struct StoredMessage {
    pub content: String,
    pub sender: Address,
}

/// The message table: an append-only log indexed by position.
///
/// The identifier of a message is its position, so identifiers are dense,
/// start at 0, never repeat, and the next identifier is the length.
pub struct MessageStore {
    entries: Vec<StoredMessage>,
}

/// What a stored message looks like to a contract: content and sender.
pub type MessageView = (Seq<char>, Address);

impl View for MessageStore {
    type V = Seq<MessageView>;

    closed spec fn view(&self) -> Seq<MessageView> {
        self.entries@.map_values(|m: StoredMessage| (m.content@, m.sender))
    }
}

impl MessageStore {
    /// An empty store: no messages, next identifier 0.
    pub fn new() -> (r: MessageStore)
        ensures
            r@ == Seq::<MessageView>::empty(),
    {
        MessageStore { entries: Vec::new() }
    }

    /// The number of messages stored, which is also the next identifier.
    pub fn count(&self) -> (r: usize)
        ensures
            r as nat == self@.len(),
    {
        self.entries.len()
    }

    /// Appends a message and returns its identifier, or `EmptyContent`
    /// without any change when `content` is empty.
    pub fn submit(&mut self, content: String, sender: Address)
        -> (r: Result<Uint256, MessagingError>)
        ensures
            content@.len() == 0 ==> {
                &&& r == Err::<Uint256, MessagingError>(MessagingError::EmptyContent)
                &&& final(self)@ == old(self)@
            },
            content@.len() > 0 ==> {
                &&& r is Ok
                &&& r->Ok_0.value() == old(self)@.len()
                &&& final(self)@ == old(self)@.push((content@, sender))
            },
    {
        if content.as_str().is_empty() {
            return Err(MessagingError::EmptyContent);
        }
        let id = Uint256::from_usize(self.entries.len());
        let ghost c = content@;
        self.entries.push(StoredMessage { content, sender });
        assert(self@ =~= old(self)@.push((c, sender)));
        Ok(id)
    }

    /// The content of message `id`, or `NotFound(id)` when `id` is not below
    /// the count.
    pub fn get_content(&self, id: Uint256) -> (r: Result<&String, MessagingError>)
        ensures
            id.value() >= self@.len() ==> r == Err::<&String, MessagingError>(MessagingError::NotFound(id)),
            id.value() < self@.len() ==> r is Ok && r->Ok_0@ == self@[id.value() as int].0,
    {
        if !id.is_below(self.entries.len()) {
            return Err(MessagingError::NotFound(id));
        }
        let i = id.to_usize(self.entries.len());
        Ok(&self.entries[i].content)
    }

    /// The sender of message `id`, or `NotFound(id)` when `id` is not below
    /// the count.
    pub fn get_sender(&self, id: Uint256) -> (r: Result<Address, MessagingError>)
        ensures
            id.value() >= self@.len() ==> r == Err::<Address, MessagingError>(MessagingError::NotFound(id)),
            id.value() < self@.len() ==> r == Ok::<Address, MessagingError>(self@[id.value() as int].1),
    {
        if !id.is_below(self.entries.len()) {
            return Err(MessagingError::NotFound(id));
        }
        let i = id.to_usize(self.entries.len());
        Ok(self.entries[i].sender)
    }
}

} // verus!
