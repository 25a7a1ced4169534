//! Identities: who an actor is, and which message is which.
//!
//! Both kinds of identity are 32 opaque bytes. Two identities are the same
//! exactly when all their bytes agree, and the identity made of zero bytes
//! stands for "nobody" and "no message".
use vstd::prelude::*;
use vstd::std_specs::cmp::PartialEqSpecImpl;

verus! {

/// The bytes of the identity that stands for nothing.
pub open spec fn zero_bytes() -> [u8; 32] {
    vstd::array::spec_array_fill_for_copy_type::<u8, 32>(0u8)
}

/// Decides whether two byte strings agree everywhere.
fn bytes_agree(a: &[u8; 32], b: &[u8; 32]) -> (r: bool)
    ensures
        r == (*a == *b),
{
    let mut i: usize = 0;
    while i < 32
        invariant
            i <= 32,
            forall|j: int| 0 <= j < i ==> a[j] == b[j],
        decreases 32 - i,
    {
        if a[i] != b[i] {
            return false;
        }
        i += 1;
    }
    assert(*a =~= *b);
    true
}

/// Decides whether every byte is zero.
fn bytes_vanish(a: &[u8; 32]) -> (r: bool)
    ensures
        r == (*a == zero_bytes()),
{
    let mut i: usize = 0;
    while i < 32
        invariant
            i <= 32,
            forall|j: int| 0 <= j < i ==> a[j] == 0,
        decreases 32 - i,
    {
        if a[i] != 0 {
            return false;
        }
        i += 1;
    }
    assert(*a =~= zero_bytes());
    true
}

/// The identity of an actor: a player, the oracle, or the coordinator itself.
#[derive(Clone, Copy, Debug, Eq, Hash)]
pub struct ActorId {
    pub bytes: [u8; 32],
}

impl ActorId {
    /// The actor that does not exist.
    pub open spec fn zero_spec() -> ActorId {
        ActorId { bytes: zero_bytes() }
    }

    /// The actor with these bytes.
    pub fn new(bytes: [u8; 32]) -> (r: ActorId)
        ensures
            r.bytes == bytes,
    {
        ActorId { bytes }
    }

    /// The actor that does not exist.
    pub fn zero() -> (r: ActorId)
        ensures
            r == ActorId::zero_spec(),
    {
        ActorId { bytes: [0u8; 32] }
    }

    /// Whether this is the actor that does not exist.
    pub fn is_zero(&self) -> (r: bool)
        ensures
            r == (*self == ActorId::zero_spec()),
    {
        bytes_vanish(&self.bytes)
    }

    /// The bytes of the actor.
    pub fn into_bytes(self) -> (r: [u8; 32])
        ensures
            r == self.bytes,
    {
        self.bytes
    }
}

/// Two actors are equal when all their bytes agree.
impl PartialEq for ActorId {
    fn eq(&self, other: &ActorId) -> (r: bool) {
        bytes_agree(&self.bytes, &other.bytes)
    }
}

impl PartialEqSpecImpl for ActorId {
    open spec fn obeys_eq_spec() -> bool {
        true
    }

    open spec fn eq_spec(&self, other: &ActorId) -> bool {
        *self == *other
    }
}

impl Default for ActorId {
    /// The actor that does not exist.
    fn default() -> (r: ActorId)
        ensures
            r == ActorId::zero_spec(),
    {
        ActorId::zero()
    }
}

/// The identity of one message: a call, a request, a reply.
#[derive(Clone, Copy, Debug, Eq, Hash)]
pub struct MessageId {
    pub bytes: [u8; 32],
}

impl MessageId {
    /// The message that does not exist.
    pub open spec fn zero_spec() -> MessageId {
        MessageId { bytes: zero_bytes() }
    }

    /// The message with these bytes.
    pub fn new(bytes: [u8; 32]) -> (r: MessageId)
        ensures
            r.bytes == bytes,
    {
        MessageId { bytes }
    }

    /// The message that does not exist.
    pub fn zero() -> (r: MessageId)
        ensures
            r == MessageId::zero_spec(),
    {
        MessageId { bytes: [0u8; 32] }
    }

    /// Whether this is the message that does not exist.
    pub fn is_zero(&self) -> (r: bool)
        ensures
            r == (*self == MessageId::zero_spec()),
    {
        bytes_vanish(&self.bytes)
    }

    /// The bytes of the message.
    pub fn into_bytes(self) -> (r: [u8; 32])
        ensures
            r == self.bytes,
    {
        self.bytes
    }
}

/// Two messages are equal when all their bytes agree.
impl PartialEq for MessageId {
    fn eq(&self, other: &MessageId) -> (r: bool) {
        bytes_agree(&self.bytes, &other.bytes)
    }
}

impl PartialEqSpecImpl for MessageId {
    open spec fn obeys_eq_spec() -> bool {
        true
    }

    open spec fn eq_spec(&self, other: &MessageId) -> bool {
        *self == *other
    }
}

impl Default for MessageId {
    /// The message that does not exist.
    fn default() -> (r: MessageId)
        ensures
            r == MessageId::zero_spec(),
    {
        MessageId::zero()
    }
}

} // verus!
