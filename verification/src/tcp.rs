//! Socket handles as compiled code sees them: type-erased, reference
//! counted, opaque.
//!
//! The operating-system bindings own the real sockets; what crosses the
//! foreign-function boundary is an [`Any`] wrapping a handle, together
//! with plain values such as the peer address. Only the wrapping lives
//! here; binding code converts between handles and live sockets.

use vstd::prelude::*;

use crate::any::{Any, AnyView};

verus! {

/// A listening socket as generated code holds it: an erased handle.
pub struct TcpListener {
    handle: Any,
}

impl TcpListener {
    /// Wraps the erased handle of a listening socket.
    pub fn new(handle: Any) -> (listener: TcpListener)
        ensures
            listener.handle() == handle@,
    {
        TcpListener { handle }
    }

    /// The wrapped handle's state.
    pub closed spec fn handle(&self) -> AnyView {
        self.handle@
    }

    /// The erased handle, for the binding that resolves it to the live
    /// socket.
    pub fn to_any(&self) -> (handle: Any)
        ensures
            handle@ == self.handle(),
    {
        self.handle.clone()
    }
}

impl Clone for TcpListener {
    /// Another reference to the same listening socket.
    fn clone(&self) -> (cloned: Self)
        ensures
            cloned.handle() == self.handle(),
    {
        TcpListener { handle: self.handle.clone() }
    }
}

/// A connected socket as generated code holds it: an erased handle.
pub struct TcpStream {
    handle: Any,
}

impl TcpStream {
    /// Wraps the erased handle of a connected socket.
    pub fn new(handle: Any) -> (stream: TcpStream)
        ensures
            stream.handle() == handle@,
    {
        TcpStream { handle }
    }

    /// The wrapped handle's state.
    pub closed spec fn handle(&self) -> AnyView {
        self.handle@
    }

    /// The erased handle, for the binding that resolves it to the live
    /// socket.
    pub fn to_any(&self) -> (handle: Any)
        ensures
            handle@ == self.handle(),
    {
        self.handle.clone()
    }
}

impl Clone for TcpStream {
    /// Another reference to the same connected socket.
    fn clone(&self) -> (cloned: Self)
        ensures
            cloned.handle() == self.handle(),
    {
        TcpStream { handle: self.handle.clone() }
    }
}

/// A connection as accepted from a listener: the stream and the peer's
/// address.
pub struct TcpAcceptedStream {
    stream: TcpStream,
    address: Vec<u8>,
}

impl TcpAcceptedStream {
    pub fn new(stream: TcpStream, address: Vec<u8>) -> (accepted: TcpAcceptedStream)
        ensures
            accepted.spec_stream().handle() == stream.handle(),
            accepted.spec_address() == address@,
    {
        TcpAcceptedStream { stream, address }
    }

    pub closed spec fn spec_stream(&self) -> TcpStream {
        self.stream
    }

    pub closed spec fn spec_address(&self) -> Seq<u8> {
        self.address@
    }

    /// The accepted connection's stream.
    pub fn stream(&self) -> (stream: &TcpStream)
        ensures
            stream == &self.spec_stream(),
    {
        &self.stream
    }

    /// The peer's address, as the bytes of its textual form.
    pub fn address(&self) -> (address: &Vec<u8>)
        ensures
            address@ == self.spec_address(),
    {
        &self.address
    }
}

} // verus!
