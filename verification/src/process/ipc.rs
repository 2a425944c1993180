//! Messages between processes.

use super::id::ProcessId;
use vstd::prelude::*;
use vstd::slice::slice_subrange;

verus! {

/// Largest number of bytes that a message carries inline.
pub const MAX_INLINE_DATA: usize = 56;

/// A message from one process to another.
#[derive(Debug, Clone, PartialEq, Eq)]
pub struct Message {
    /// The process that sent the message.
    pub sender: ProcessId,
    /// What kind of message it is.
    pub tag: u64,
    /// The bytes carried; those from `data_len` on are zero padding.
    pub data: [u8; MAX_INLINE_DATA],
    /// Number of bytes carried.
    pub data_len: usize,
}

impl Message {
    /// The bytes that the message carries.
    pub open spec fn payload(self) -> Seq<u8> {
        self.data@.take(self.data_len as int)
    }

    /// A message without data.
    pub fn new(sender: ProcessId, tag: u64) -> (r: Self)
        ensures
            r.sender == sender,
            r.tag == tag,
            r.data_len == 0,
            r.data@ == Seq::new(56, |i: int| 0u8),
            r.payload() == Seq::<u8>::empty(),
    {
        let r = Self { sender, tag, data: [0;MAX_INLINE_DATA], data_len: 0 };
        assert(r.data@ =~= Seq::new(56, |i: int| 0u8));
        r
    }

    /// A message that carries `data`, or `None` where `data` is longer than
    /// 56 bytes.
    pub fn with_data(sender: ProcessId, tag: u64, data: &[u8]) -> (r: Option<Self>)
        ensures
            r is Some <==> data@.len() <= MAX_INLINE_DATA,
            r is Some ==> {
                &&& r.unwrap().sender == sender
                &&& r.unwrap().tag == tag
                &&& r.unwrap().data_len == data@.len()
                &&& r.unwrap().payload() == data@
                &&& r.unwrap().data@ == data@ + Seq::new(
                    (56 - data@.len()) as nat,
                    |i: int| 0u8,
                )
            },
    {
        if data.len() > MAX_INLINE_DATA {
            return None;
        }
        let mut msg = Self::new(sender, tag);
        let mut i: usize = 0;
        while i < data.len()
            invariant
                i <= data@.len() <= 56,
                msg.sender == sender,
                msg.tag == tag,
                msg.data_len == 0,
                forall|j: int| 0 <= j < i ==> msg.data@[j] == data@[j],
                forall|j: int| i <= j < 56 ==> msg.data@[j] == 0,
            decreases data@.len() - i,
        {
            msg.data[i] = data[i];
            i += 1;
        }
        msg.data_len = data.len();
        assert(msg.payload() =~= data@);
        assert(msg.data@ =~= data@ + Seq::new((56 - data@.len()) as nat, |i: int| 0u8));
        Some(msg)
    }

    /// The bytes that the message carries. `data_len` has to be a length
    /// that the message can have.
    pub fn data(&self) -> (r: &[u8])
        requires
            self.data_len <= MAX_INLINE_DATA,
        ensures
            r@ == self.payload(),
    {
        slice_subrange(self.data.as_slice(), 0, self.data_len)
    }

    /// Whether the message carries any bytes.
    pub fn has_data(&self) -> (r: bool)
        ensures
            r == (self.data_len > 0),
    {
        self.data_len > 0
    }
}

} // verus!
