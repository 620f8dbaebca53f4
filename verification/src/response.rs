//! A response packet, recorded as the writer operations that produce it.

use vstd::prelude::*;

use crate::protocol::SpecificThreadId;

verus! {

/// One writer operation.
#[derive(Debug, Clone, PartialEq, Eq)]
pub enum ResponseOp {
    /// Write these characters as they are.
    Str(&'static str),
    /// Write a number in hexadecimal.
    Num(u64),
    /// Write each byte as two hexadecimal digits.
    HexBuf(Vec<u8>),
    /// Write bytes in the protocol's escaped binary form.
    Binary(Vec<u8>),
    /// Write a thread id in the protocol's thread-id syntax.
    ThreadId(SpecificThreadId),
}

/// The mathematical value of a [`ResponseOp`].
pub enum ResponseOpView {
    Str(Seq<char>),
    Num(u64),
    HexBuf(Seq<u8>),
    Binary(Seq<u8>),
    ThreadId(SpecificThreadId),
}

impl View for ResponseOp {
    type V = ResponseOpView;

    open spec fn view(&self) -> ResponseOpView {
        match self {
            ResponseOp::Str(s) => ResponseOpView::Str(s@),
            ResponseOp::Num(n) => ResponseOpView::Num(*n),
            ResponseOp::HexBuf(b) => ResponseOpView::HexBuf(b@),
            ResponseOp::Binary(b) => ResponseOpView::Binary(b@),
            ResponseOp::ThreadId(t) => ResponseOpView::ThreadId(*t),
        }
    }
}

/// A response packet under construction.
#[derive(Debug, Clone, PartialEq, Eq)]
pub struct Response {
    pub ops: Vec<ResponseOp>,
}

impl View for Response {
    type V = Seq<ResponseOpView>;

    open spec fn view(&self) -> Seq<ResponseOpView> {
        self.ops@.map_values(|o: ResponseOp| o@)
    }
}

/// The views of a sequence of responses, each written on its own.
pub open spec fn responses_view(v: Seq<Response>) -> Seq<Seq<ResponseOpView>> {
    v.map_values(|r: Response| r@)
}

impl Response {
    /// An empty response.
    pub fn new() -> (r: Response)
        ensures
            r@ == Seq::<ResponseOpView>::empty(),
    {
        let r = Response { ops: Vec::new() };
        assert(r@ =~= Seq::<ResponseOpView>::empty());
        r
    }

    /// Appends one operation.
    pub fn push_op(&mut self, op: ResponseOp)
        ensures
            final(self)@ == old(self)@.push(op@),
    {
        self.ops.push(op);
        assert(self@ =~= old(self)@.push(op@));
    }

    /// Writes a string as it is.
    pub fn write_str(&mut self, s: &'static str)
        ensures
            final(self)@ == old(self)@.push(ResponseOpView::Str(s@)),
    {
        self.push_op(ResponseOp::Str(s));
    }

    /// Writes a number in hexadecimal.
    pub fn write_num(&mut self, n: u64)
        ensures
            final(self)@ == old(self)@.push(ResponseOpView::Num(n)),
    {
        self.push_op(ResponseOp::Num(n));
    }

    /// Writes bytes as hexadecimal digit pairs.
    pub fn write_hex_buf(&mut self, data: &[u8])
        ensures
            final(self)@ == old(self)@.push(ResponseOpView::HexBuf(data@)),
    {
        let v = vstd::slice::slice_to_vec(data);
        self.push_op(ResponseOp::HexBuf(v));
    }

    /// Writes bytes in escaped binary form.
    pub fn write_binary(&mut self, data: &[u8])
        ensures
            final(self)@ == old(self)@.push(ResponseOpView::Binary(data@)),
    {
        let v = vstd::slice::slice_to_vec(data);
        self.push_op(ResponseOp::Binary(v));
    }

    /// Writes a thread id.
    pub fn write_specific_thread_id(&mut self, tid: SpecificThreadId)
        ensures
            final(self)@ == old(self)@.push(ResponseOpView::ThreadId(tid)),
    {
        self.push_op(ResponseOp::ThreadId(tid));
    }
}

} // verus!
