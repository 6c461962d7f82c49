use vstd::prelude::*;

verus! {

/// The number of distinct client ids a recipient word can carry (30 bits).
pub const CLIENT_ID_LIMIT: u32 = 0x4000_0000;

/// Identifies a client within one room. Ids are assigned from 1 upwards;
/// zero is reserved.
#[derive(Clone, Copy, Debug, PartialEq, Eq, Structural, PartialOrd, Ord, Hash)]
pub struct ClientId(pub u32);

impl ClientId {
    pub fn new(id: u32) -> (r: ClientId)
        ensures
            r.0 == id,
    {
        ClientId(id)
    }

    pub fn value(&self) -> (r: u32)
        ensures
            r == self.0,
    {
        self.0
    }
}

/// Who an outbound message is addressed to.
#[derive(Clone, Copy, Debug, PartialEq, Eq, Structural)]
pub enum MessageRecipient {
    Broadcast,
    EveryoneExcept(ClientId),
    Client(ClientId),
}

/// Whether a message addressed to `to` is meant for client `c`.
pub open spec fn addressed_to(to: MessageRecipient, c: ClientId) -> bool {
    match to {
        MessageRecipient::Broadcast => true,
        MessageRecipient::EveryoneExcept(skip) => c != skip,
        MessageRecipient::Client(only) => c == only,
    }
}

/// A recipient fits in a word when its client id fits in the low 30 bits.
pub open spec fn representable(r: MessageRecipient) -> bool {
    match r {
        MessageRecipient::Broadcast => true,
        MessageRecipient::EveryoneExcept(c) => c.0 < CLIENT_ID_LIMIT,
        MessageRecipient::Client(c) => c.0 < CLIENT_ID_LIMIT,
    }
}

/// The word of a recipient: a 2-bit tag above a 30-bit client id.
pub open spec fn word_of(r: MessageRecipient) -> int {
    match r {
        MessageRecipient::Broadcast => 0,
        MessageRecipient::EveryoneExcept(c) => CLIENT_ID_LIMIT + c.0,
        MessageRecipient::Client(c) => 2 * CLIENT_ID_LIMIT + c.0,
    }
}

/// The recipient a word stands for; the tag `0b11` is reserved and decodes to
/// nothing.
pub open spec fn recipient_of_word(w: u32) -> Option<MessageRecipient> {
    let tag = w / CLIENT_ID_LIMIT;
    let id = ClientId((w % CLIENT_ID_LIMIT) as u32);
    if tag == 0 {
        Some(MessageRecipient::Broadcast)
    } else if tag == 1 {
        Some(MessageRecipient::EveryoneExcept(id))
    } else if tag == 2 {
        Some(MessageRecipient::Client(id))
    } else {
        None
    }
}

impl MessageRecipient {
    /// Packs the recipient into the word that crosses the WebAssembly boundary.
    pub fn encode_u32(&self) -> (w: u32)
        requires
            representable(*self),
        ensures
            w == word_of(*self),
    {
        match *self {
            MessageRecipient::Broadcast => 0,
            MessageRecipient::EveryoneExcept(c) => CLIENT_ID_LIMIT + c.0,
            MessageRecipient::Client(c) => 2 * CLIENT_ID_LIMIT + c.0,
        }
    }

    /// Unpacks a word; `None` for the reserved tag.
    pub fn decode_u32(w: u32) -> (r: Option<MessageRecipient>)
        ensures
            r == recipient_of_word(w),
            r.is_some() ==> representable(r.unwrap()),
    {
        let tag: u32 = w / CLIENT_ID_LIMIT;
        let id = ClientId(w % CLIENT_ID_LIMIT);
        if tag == 0 {
            Some(MessageRecipient::Broadcast)
        } else if tag == 1 {
            Some(MessageRecipient::EveryoneExcept(id))
        } else if tag == 2 {
            Some(MessageRecipient::Client(id))
        } else {
            None
        }
    }
}

impl From<u32> for MessageRecipient {
    fn from(client: u32) -> (r: MessageRecipient)
        ensures
            r == MessageRecipient::Client(ClientId(client)),
    {
        MessageRecipient::Client(ClientId(client))
    }
}

impl vstd::std_specs::convert::FromSpecImpl<u32> for MessageRecipient {
    open spec fn obeys_from_spec() -> bool {
        true
    }

    open spec fn from_spec(client: u32) -> MessageRecipient {
        MessageRecipient::Client(ClientId(client))
    }
}

/// Encoding a representable recipient and decoding the word gives the
/// recipient back.
pub proof fn lemma_recipient_round_trip(r: MessageRecipient)
    requires
        representable(r),
    ensures
        0 <= word_of(r) <= u32::MAX,
        recipient_of_word(word_of(r) as u32) == Some(r),
{
    let k = CLIENT_ID_LIMIT as int;
    match r {
        MessageRecipient::Broadcast => {},
        MessageRecipient::EveryoneExcept(c) => {
            let w = (k + c.0) as u32;
            assert(w / CLIENT_ID_LIMIT == 1 && w % CLIENT_ID_LIMIT == c.0) by (nonlinear_arith)
                requires
                    w == k + c.0,
                    c.0 < k,
                    k == 0x4000_0000,
            ;
        },
        MessageRecipient::Client(c) => {
            let w = (2 * k + c.0) as u32;
            assert(w / CLIENT_ID_LIMIT == 2 && w % CLIENT_ID_LIMIT == c.0) by (nonlinear_arith)
                requires
                    w == 2 * k + c.0,
                    c.0 < k,
                    k == 0x4000_0000,
            ;
        },
    }
}

} // verus!
