//! `qXfer:auxv:read`: the target's auxiliary vector.

use vstd::prelude::*;

use crate::error::{handle_error, target_error_to_error, Error, TargetError};
use crate::response::{Response, ResponseOpView};
use crate::stub::{GdbStubImpl, HandlerStatus};

verus! {

impl GdbStubImpl {
    /// `qXfer:auxv:read`. `answer` is what the target's auxv read returned
    /// (`None`: the target does not support it, and the packet is left
    /// unanswered), `buf` the buffer it read into. No bytes read means the
    /// end of the data (`l`); otherwise `m` and the bytes read follow. A
    /// count beyond the buffer fails the packet after the `m`.
    pub fn handle_auxv<E>(
        &self,
        res: &mut Response,
        answer: Option<Result<usize, TargetError<E>>>,
        buf: &[u8],
    ) -> (r: Result<HandlerStatus, Error<E>>)
        ensures
            match answer {
                None => r == Ok::<HandlerStatus, Error<E>>(HandlerStatus::Handled) && final(res)@
                    == old(res)@,
                Some(Err(e)) => r == Err::<HandlerStatus, Error<E>>(target_error_to_error(e))
                    && final(res)@ == old(res)@,
                Some(Ok(n)) => if n == 0 {
                    r == Ok::<HandlerStatus, Error<E>>(HandlerStatus::Handled) && final(res)@
                        == old(res)@.push(ResponseOpView::Str("l"@))
                } else if n <= buf@.len() {
                    r == Ok::<HandlerStatus, Error<E>>(HandlerStatus::Handled) && final(res)@
                        == old(res)@.push(ResponseOpView::Str("m"@)).push(
                        ResponseOpView::Binary(buf@.take(n as int)),
                    )
                } else {
                    r == Err::<HandlerStatus, Error<E>>(Error::PacketBufferOverflow) && final(res)@ == old(res)@.push(ResponseOpView::Str("m"@))
                },
            },
    {
        let answer = match answer {
            Some(a) => a,
            None => return Ok(HandlerStatus::Handled),
        };
        let ret = match handle_error(answer) {
            Ok(n) => n,
            Err(e) => return Err(e),
        };
        if ret == 0 {
            res.write_str("l");
        } else {
            res.write_str("m");
            if ret > buf.len() {
                return Err(Error::PacketBufferOverflow);
            }
            let data = vstd::slice::slice_subrange(buf, 0, ret);
            assert(data@ =~= buf@.take(ret as int));
            res.write_binary(data);
        }
        Ok(HandlerStatus::Handled)
    }
}

} // verus!
