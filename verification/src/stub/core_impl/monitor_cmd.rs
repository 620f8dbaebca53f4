//! `qRcmd`: a command for the target's own monitor.

use vstd::prelude::*;

use crate::error::Error;
use crate::response::{Response, ResponseOpView};
use crate::stub::{GdbStubImpl, HandlerStatus};

verus! {

/// What a target did with a monitor command: whether its console output is
/// to be run-length encoded, the messages it wrote to the console in order,
/// and what the command returned.
pub struct MonitorAnswer<E> {
    pub use_rle: bool,
    pub messages: Vec<Vec<u8>>,
    pub result: Result<(), E>,
}

/// A console output packet, sent on its own and flushed at once.
#[derive(Debug, Clone, PartialEq, Eq)]
pub struct ConsolePacket {
    pub use_rle: bool,
    pub response: Response,
}

/// The operations of the console packet for one message: `O` and the
/// message in hex.
pub open spec fn console_ops(msg: Seq<u8>) -> Seq<ResponseOpView> {
    seq![ResponseOpView::Str("O"@), ResponseOpView::HexBuf(msg)]
}

impl GdbStubImpl {
    /// `qRcmd`. `answer` is what the target did with the command (`None`:
    /// it does not support monitor commands, and the packet is left
    /// unanswered). Each console message becomes a packet of its own, with
    /// the target's run-length setting, appended to `packets`; the command's
    /// own reply is `OK`.
    pub fn handle_monitor_cmd<E>(
        &self,
        packets: &mut Vec<ConsolePacket>,
        answer: Option<MonitorAnswer<E>>,
    ) -> (r: Result<HandlerStatus, Error<E>>)
        ensures
            match answer {
                None => r == Ok::<HandlerStatus, Error<E>>(HandlerStatus::Handled) && final(packets)@ == old(packets)@,
                Some(a) => {
                    &&& final(packets)@.len() == old(packets)@.len() + a.messages@.len()
                    &&& forall|i: int|
                        0 <= i < old(packets)@.len() ==> #[trigger] final(packets)@[i] == old(packets)@[i]
                    &&& forall|j: int|
                        0 <= j < a.messages@.len() ==> {
                            &&& (#[trigger] final(packets)@[old(packets)@.len() + j]).use_rle
                                == a.use_rle
                            &&& final(packets)@[old(packets)@.len() + j].response@ == console_ops(
                                a.messages@[j]@,
                            )
                        }
                    &&& r == match a.result {
                        Ok(()) => Ok::<HandlerStatus, Error<E>>(HandlerStatus::NeedsOk),
                        Err(e) => Err(Error::TargetError(e)),
                    }
                },
            },
    {
        let answer = match answer {
            Some(a) => a,
            None => return Ok(HandlerStatus::Handled),
        };
        let MonitorAnswer { use_rle, messages, result } = answer;
        let ghost start = packets@;
        let mut i: usize = 0;
        while i < messages.len()
            invariant
                i <= messages@.len(),
                packets@.len() == start.len() + i,
                forall|k: int| 0 <= k < start.len() ==> #[trigger] packets@[k] == start[k],
                forall|j: int|
                    0 <= j < i ==> {
                        &&& (#[trigger] packets@[start.len() + j]).use_rle == use_rle
                        &&& packets@[start.len() + j].response@ == console_ops(messages@[j]@)
                    },
            decreases messages@.len() - i,
        {
            let mut response = Response::new();
            response.write_str("O");
            response.write_hex_buf(messages[i].as_slice());
            assert(response@ =~= console_ops(messages@[i as int]@));
            packets.push(ConsolePacket { use_rle, response });
            i = i + 1;
        }
        match result {
            Ok(()) => Ok(HandlerStatus::NeedsOk),
            Err(e) => Err(Error::TargetError(e)),
        }
    }
}

/// Each console packet of `qRcmd` carries the whole message the target
/// wrote, byte for byte, after the `O` that marks console output: its hex
/// payload has as many bytes as the message, and different messages give
/// different packets.
pub proof fn law_console_packet_carries_whole_message(msg: Seq<u8>, other: Seq<u8>)
    ensures
        console_ops(msg).len() == 2,
        console_ops(msg)[0] == ResponseOpView::Str("O"@),
        console_ops(msg)[1] == ResponseOpView::HexBuf(msg),
        console_ops(msg)[1] matches ResponseOpView::HexBuf(p) && p.len() == msg.len(),
        console_ops(msg) == console_ops(other) ==> msg == other,
{
    if console_ops(msg) == console_ops(other) {
        assert(console_ops(msg)[1] == console_ops(other)[1]);
    }
}

} // verus!
