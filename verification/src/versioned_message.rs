//! A message of either form.

use vstd::prelude::*;

use crate::instruction::CompiledInstruction;
use crate::message::Message;
use crate::types::Pubkey;
use crate::ui::MessageHeader;

verus! {

/// The bit that marks the first byte of a versioned message on the wire.
pub const MESSAGE_VERSION_PREFIX: u8 = 0x80;

/// A legacy message or a message with a version.
#[derive(Clone, Debug, PartialEq, Eq)]
pub enum VersionedMessage {
    Legacy(Message),
    V0(crate::message_v0::Message),
}

pub enum VersionedMessageView {
    Legacy(crate::message::MessageView),
    V0(crate::message_v0::MessageView),
}

impl View for VersionedMessage {
    type V = VersionedMessageView;

    open spec fn view(&self) -> VersionedMessageView {
        match self {
            VersionedMessage::Legacy(m) => VersionedMessageView::Legacy(m@),
            VersionedMessage::V0(m) => VersionedMessageView::V0(m@),
        }
    }
}

impl Default for VersionedMessage {
    /// A legacy message that asks for nothing.
    fn default() -> (message: VersionedMessage)
        ensures
            message matches VersionedMessage::Legacy(m) && m.header == (MessageHeader {
                num_required_signatures: 0,
                num_readonly_signed_accounts: 0,
                num_readonly_unsigned_accounts: 0,
            }) && m.account_keys@ == Seq::<Pubkey>::empty() && m.recent_blockhash@ == Seq::new(
                32,
                |i: int| 0u8,
            ) && m.instructions@ == Seq::<CompiledInstruction>::empty(),
    {
        let message = Message {
            header: MessageHeader {
                num_required_signatures: 0,
                num_readonly_signed_accounts: 0,
                num_readonly_unsigned_accounts: 0,
            },
            account_keys: Vec::new(),
            recent_blockhash: [0u8; 32],
            instructions: Vec::new(),
        };
        assert(message.account_keys@ =~= Seq::<Pubkey>::empty());
        assert(message.instructions@ =~= Seq::<CompiledInstruction>::empty());
        assert(message.recent_blockhash@ =~= Seq::new(32, |i: int| 0u8));
        VersionedMessage::Legacy(message)
    }
}

impl VersionedMessage {
    /// The account keys that the message itself lists.
    pub open spec fn static_keys(&self) -> Seq<Pubkey> {
        match self {
            VersionedMessage::Legacy(m) => m.account_keys@,
            VersionedMessage::V0(m) => m.account_keys@,
        }
    }

    /// The instructions of the message.
    pub open spec fn instruction_list(&self) -> Seq<CompiledInstruction> {
        match self {
            VersionedMessage::Legacy(m) => m.instructions@,
            VersionedMessage::V0(m) => m.instructions@,
        }
    }

    /// The account keys that the message itself lists.
    pub fn static_account_keys(&self) -> (keys: &Vec<Pubkey>)
        ensures
            keys@ == self.static_keys(),
    {
        match self {
            VersionedMessage::Legacy(m) => &m.account_keys,
            VersionedMessage::V0(m) => &m.account_keys,
        }
    }

    /// The instructions of the message.
    pub fn instructions(&self) -> (list: &Vec<CompiledInstruction>)
        ensures
            list@ == self.instruction_list(),
    {
        match self {
            VersionedMessage::Legacy(m) => &m.instructions,
            VersionedMessage::V0(m) => &m.instructions,
        }
    }

    /// Whether the message has a version.
    pub fn is_v0(&self) -> (v0: bool)
        ensures
            v0 == (self is V0),
    {
        match self {
            VersionedMessage::Legacy(_) => false,
            VersionedMessage::V0(_) => true,
        }
    }
}

} // verus!
