//! `qOffsets`: where the target relocated the program.

use vstd::prelude::*;

use crate::error::Error;
use crate::response::{Response, ResponseOpView};
use crate::stub::{GdbStubImpl, HandlerStatus};
use crate::target::Offsets;

verus! {

/// The reply to `qOffsets`. A missing `Bss` offset is reported as the
/// `Data` offset: the debugger applies the data offset to the bss section
/// anyway, yet insists on seeing one.
pub open spec fn offsets_reply(offsets: Offsets) -> Seq<ResponseOpView> {
    match offsets {
        Offsets::Sections { text, data, bss } => seq![
            ResponseOpView::Str("Text="@),
            ResponseOpView::Num(text),
            ResponseOpView::Str(";Data="@),
            ResponseOpView::Num(data),
            ResponseOpView::Str(";Bss="@),
            ResponseOpView::Num(
                match bss {
                    Some(b) => b,
                    None => data,
                },
            ),
        ],
        Offsets::Segments { text_seg, data_seg } => seq![
            ResponseOpView::Str("TextSeg="@),
            ResponseOpView::Num(text_seg),
        ] + match data_seg {
            Some(d) => seq![ResponseOpView::Str(";DataSeg="@), ResponseOpView::Num(d)],
            None => Seq::empty(),
        },
    }
}

impl GdbStubImpl {
    /// `qOffsets`. `answer` is what the target reported (`None`: it does not
    /// support section offsets, and the packet is left unanswered).
    pub fn handle_section_offsets<E>(&self, res: &mut Response, answer: Option<Result<Offsets, E>>) -> (r:
        Result<HandlerStatus, Error<E>>)
        ensures
            match answer {
                None => r == Ok::<HandlerStatus, Error<E>>(HandlerStatus::Handled) && final(res)@
                    == old(res)@,
                Some(Err(e)) => r == Err::<HandlerStatus, Error<E>>(Error::TargetError(e))
                    && final(res)@ == old(res)@,
                Some(Ok(offsets)) => r == Ok::<HandlerStatus, Error<E>>(HandlerStatus::Handled)
                    && final(res)@ == old(res)@ + offsets_reply(offsets),
            },
    {
        let answer = match answer {
            Some(a) => a,
            None => return Ok(HandlerStatus::Handled),
        };
        let offsets = match answer {
            Ok(o) => o,
            Err(e) => return Err(Error::TargetError(e)),
        };
        match offsets {
            Offsets::Sections { text, data, bss } => {
                res.write_str("Text=");
                res.write_num(text);
                res.write_str(";Data=");
                res.write_num(data);
                let bss = match bss {
                    Some(b) => b,
                    None => data,
                };
                res.write_str(";Bss=");
                res.write_num(bss);
            },
            Offsets::Segments { text_seg, data_seg } => {
                res.write_str("TextSeg=");
                res.write_num(text_seg);
                if let Some(data) = data_seg {
                    res.write_str(";DataSeg=");
                    res.write_num(data);
                }
            },
        }
        assert(res@ =~= old(res)@ + offsets_reply(offsets));
        Ok(HandlerStatus::Handled)
    }
}

/// For sections, `qOffsets` reports the text offset after `Text=`, the data
/// offset after `Data=` whatever the bss offset is, and after `Bss=` the bss
/// offset, or the data offset where the target gave none. For segments it
/// reports the text segment, and the data segment only where there is one.
pub proof fn law_offsets_each_in_its_place(
    text: u64,
    data: u64,
    bss: Option<u64>,
    other_bss: Option<u64>,
    data_seg: Option<u64>,
)
    ensures
        offsets_reply(Offsets::Sections { text, data, bss }).len() == 6,
        offsets_reply(Offsets::Sections { text, data, bss })[0] == ResponseOpView::Str("Text="@),
        offsets_reply(Offsets::Sections { text, data, bss })[1] == ResponseOpView::Num(text),
        offsets_reply(Offsets::Sections { text, data, bss })[2] == ResponseOpView::Str(";Data="@),
        offsets_reply(Offsets::Sections { text, data, bss })[3] == ResponseOpView::Num(data),
        offsets_reply(Offsets::Sections { text, data, bss })[3] == offsets_reply(
            Offsets::Sections { text, data, bss: other_bss },
        )[3],
        offsets_reply(Offsets::Sections { text, data, bss })[4] == ResponseOpView::Str(";Bss="@),
        bss matches Some(b) ==> offsets_reply(Offsets::Sections { text, data, bss })[5]
            == ResponseOpView::Num(b),
        bss is None ==> offsets_reply(Offsets::Sections { text, data, bss })[5]
            == ResponseOpView::Num(data),
        offsets_reply(Offsets::Segments { text_seg: text, data_seg }).len() == (if data_seg is Some {
            4int
        } else {
            2int
        }),
        offsets_reply(Offsets::Segments { text_seg: text, data_seg })[0] == ResponseOpView::Str(
            "TextSeg="@,
        ),
        offsets_reply(Offsets::Segments { text_seg: text, data_seg })[1] == ResponseOpView::Num(
            text,
        ),
        data_seg matches Some(d) ==> offsets_reply(Offsets::Segments { text_seg: text, data_seg })[2]
            == ResponseOpView::Str(";DataSeg="@) && offsets_reply(
            Offsets::Segments { text_seg: text, data_seg },
        )[3] == ResponseOpView::Num(d),
{
}

} // verus!
