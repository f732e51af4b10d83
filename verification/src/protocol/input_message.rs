//! A framed message as it came off a connection, before it is decoded.
use vstd::prelude::*;
use crate::message::wire::u32_at;
use crate::message::unpack::read_u32;

verus! {

/// A received message: its 32-bit size, then its 32-bit code, then the rest.
pub trait InputMessage: Send {
    /// The bytes of the message, size included.
    spec fn bytes(&self) -> Seq<u8>;

    /// The message's code: the little-endian `u32` just after the size.
    fn code(&self) -> (code: u32)
        requires
            self.bytes().len() >= 8,
        ensures
            code == u32_at(self.bytes(), 4),
    ;
}

impl dyn InputMessage {
    /// The received message held in `buffer`. It is returned as the boxed
    /// implementation, which coerces to `Box<dyn InputMessage>` where one is
    /// wanted.
    pub fn from(buffer: Vec<u8>) -> (message: Box<InputMessageImpl>)
        ensures
            message.bytes() == buffer@,
    {
        let message = InputMessageImpl::new(buffer);
        Box::new(message)
    }
}

impl InputMessageImpl {
    /// The received message held in `buffer`.
    fn new(buffer: Vec<u8>) -> (message: InputMessageImpl)
        ensures
            message.bytes() == buffer@,
    {
        InputMessageImpl { buffer }
    }
}

/// A received message held as its bytes.
pub struct InputMessageImpl {
    buffer: Vec<u8>,
}

impl InputMessage for InputMessageImpl {
    closed spec fn bytes(&self) -> Seq<u8> {
        self.buffer@
    }

    fn code(&self) -> (code: u32) {
        read_u32(self.buffer.as_slice(), 4)
    }
}

} // verus!
