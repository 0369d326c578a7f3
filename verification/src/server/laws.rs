//! What holds of every connection, whatever the client sends.
//!
//! Each law is stated of [`step_rel`], the relation that
//! [`ServerShard::step`](crate::server::shard::ServerShard::step) is proved
//! to obey, and so holds of every step the machine takes.

use crate::driver::ImageInfo;
use crate::endian::{
    be_bytes_u16, be_bytes_u32, be_bytes_u64, be_u32, be_u64, lemma_be_roundtrip,
};
use crate::proto::{NbdOpt, NbdOptReply, IHAVEOPT, MAX_OPTION_DATA_LEN, NBD_REQUEST_MAGIC};
use crate::server::config::ServerConfigView;
use crate::server::options::{is_list_answer, unknown_option_text, OptionHandler};
use crate::server::shard::{
    closes, image_names, option_header_bytes, replies_wire, step_rel, ActionView, CloseReason,
    EventView, NextView, ShardPhase, ShardView,
};
use crate::server::state::ServerStateView;
use crate::wire::{
    law_option_header_roundtrip, opt_reply_wire, zeros, OptReply, OptionHeader, ProtocolError,
    OPTION_CODE_LEN, OPTION_MAGIC_LEN, REQUEST_MAGIC_LEN,
};
use vstd::prelude::*;

verus! {

/// A client that answers the banner without offering fixed-newstyle is
/// turned away: nothing is sent, and the connection is closed.
pub proof fn law_client_without_fixed_newstyle_is_turned_away(
    pre: ShardView,
    config: ServerConfigView,
    state: ServerStateView,
    flags: u32,
    post: ShardView,
    action: ActionView,
)
    requires
        pre.phase == ShardPhase::ClientFlags,
        flags & 1 != 1,
        step_rel(pre, config, state, EventView::Bytes(be_bytes_u32(flags)), post, action),
    ensures
        closes(pre, CloseReason::Protocol(ProtocolError::NotFixedNewstyle), post, action),
{
    lemma_be_roundtrip(0, flags, 0);
}

/// A closed connection stays closed: whatever is reported to it, it sends
/// nothing and asks for nothing to be read.
pub proof fn law_closed_stays_closed(
    pre: ShardView,
    config: ServerConfigView,
    state: ServerStateView,
    event: EventView,
    post: ShardView,
    action: ActionView,
)
    requires
        pre.phase == ShardPhase::Closed,
        step_rel(pre, config, state, event, post, action),
    ensures
        closes(pre, CloseReason::UnexpectedEvent, post, action),
{
}

/// During the negotiation, eight bytes that are not the magic of an option
/// end the connection at once: the server asks for nothing more.
pub proof fn law_negotiation_expects_option_magic(
    pre: ShardView,
    config: ServerConfigView,
    state: ServerStateView,
    bytes: Seq<u8>,
    post: ShardView,
    action: ActionView,
)
    requires
        pre.phase == ShardPhase::OptionMagic,
        bytes.len() == OPTION_MAGIC_LEN,
        be_u64(bytes) != IHAVEOPT,
        step_rel(pre, config, state, EventView::Bytes(bytes), post, action),
    ensures
        closes(pre, CloseReason::Protocol(ProtocolError::BadMagic), post, action),
{
}

/// A code that stands for no option ends the connection at once: the
/// server does not ask for the length of a payload.
pub proof fn law_unknown_option_code_ends_the_connection(
    pre: ShardView,
    config: ServerConfigView,
    state: ServerStateView,
    code: u32,
    post: ShardView,
    action: ActionView,
)
    requires
        pre.phase == ShardPhase::OptionCode,
        forall|o: NbdOpt| o.code() != code,
        step_rel(pre, config, state, EventView::Bytes(be_bytes_u32(code)), post, action),
    ensures
        closes(pre, CloseReason::Protocol(ProtocolError::UnknownOption), post, action),
{
    lemma_be_roundtrip(0, code, 0);
    assert(be_bytes_u32(code).len() == OPTION_CODE_LEN);
}

/// An option that is mapped to no handler is answered as not supported,
/// with a text that names it, and the negotiation continues.
pub proof fn law_unmapped_option_is_unsupported(
    pre: ShardView,
    config: ServerConfigView,
    state: ServerStateView,
    h: OptionHeader,
    data: Seq<u8>,
    post: ShardView,
    action: ActionView,
)
    requires
        pre.phase == ShardPhase::OptionData(h),
        data.len() == h.length,
        !config.option_handlers.contains_key(h.option.code()),
        step_rel(pre, config, state, EventView::Bytes(data), post, action),
    ensures
        action.send == opt_reply_wire(
            h.option,
            NbdOptReply::ErrUnsup,
            unknown_option_text(h.option.code()),
        ),
        action.next == NextView::Read(OPTION_MAGIC_LEN as nat),
        post == (ShardView { phase: ShardPhase::OptionMagic, ..pre }),
{
}

/// An option that announces more payload than the server accepts ends the
/// connection when its length arrives: no payload is read, no handler sees
/// it, and nothing is sent.
pub proof fn law_oversized_option_is_refused(
    pre: ShardView,
    config: ServerConfigView,
    state: ServerStateView,
    option: NbdOpt,
    length: u32,
    post: ShardView,
    action: ActionView,
)
    requires
        pre.phase == ShardPhase::OptionLength(option),
        length > MAX_OPTION_DATA_LEN,
        step_rel(pre, config, state, EventView::Bytes(be_bytes_u32(length)), post, action),
    ensures
        closes(pre, CloseReason::Protocol(ProtocolError::OptionTooLarge), post, action),
{
    law_option_header_roundtrip(OptionHeader { option, length });
    assert(option_header_bytes(option, be_bytes_u32(length)) == (OptionHeader {
        option,
        length,
    }).wire());
}

/// A list option is answered with one server reply for every exported
/// image and then one acknowledgement without payload, and the negotiation
/// continues.
pub proof fn law_list_answers_every_image(
    pre: ShardView,
    config: ServerConfigView,
    state: ServerStateView,
    h: OptionHeader,
    data: Seq<u8>,
    post: ShardView,
    action: ActionView,
)
    requires
        pre.phase == ShardPhase::OptionData(h),
        data.len() == h.length,
        config.handler(h.option) == OptionHandler::List,
        step_rel(pre, config, state, EventView::Bytes(data), post, action),
    ensures
        exists|replies: Seq<OptReply>|
            {
                &&& #[trigger] replies_wire(replies) == action.send
                &&& replies.len() == state.listing().len() + 1
                &&& forall|i: int|
                    0 <= i < state.listing().len() ==> (#[trigger] replies[i]).reply
                        == NbdOptReply::Server
                &&& replies.last().reply == NbdOptReply::Ack
                &&& replies.last().data@.len() == 0
            },
        action.next == NextView::Read(OPTION_MAGIC_LEN as nat),
        post == (ShardView { phase: ShardPhase::OptionMagic, ..pre }),
{
    let replies = choose|replies: Seq<OptReply>|
        #[trigger] is_list_answer(image_names(state), h.option, replies) && action.send
            == replies_wire(replies);
    assert(replies_wire(replies) == action.send);
}

/// When the selected image is open the server sends its size, the
/// transmission flags, and 124 zero bytes unless the client asked to leave
/// them out; then transmission begins, and the server waits for the header
/// of a request.
pub proof fn law_export_name_answer(
    pre: ShardView,
    config: ServerConfigView,
    state: ServerStateView,
    name: Seq<char>,
    info: ImageInfo,
    post: ShardView,
    action: ActionView,
)
    requires
        pre.phase == ShardPhase::OpeningImage,
        step_rel(pre, config, state, EventView::ImageOpened(name, info), post, action),
    ensures
        action.send == be_bytes_u64(info.size) + be_bytes_u16(pre.tx_flags) + if pre.client_flags
            & 2 == 2 {
            Seq::<u8>::empty()
        } else {
            zeros(124)
        },
        action.next == NextView::Read(REQUEST_MAGIC_LEN as nat),
        post.phase == ShardPhase::RequestMagic,
        post.image == Some((name, info)),
{
}

/// In the transmission phase, four bytes that are not the magic of a
/// request end the connection at once: the server asks for nothing more.
pub proof fn law_transmission_expects_request_magic(
    pre: ShardView,
    config: ServerConfigView,
    state: ServerStateView,
    bytes: Seq<u8>,
    post: ShardView,
    action: ActionView,
)
    requires
        pre.phase == ShardPhase::RequestMagic,
        bytes.len() == REQUEST_MAGIC_LEN,
        be_u32(bytes) != NBD_REQUEST_MAGIC,
        step_rel(pre, config, state, EventView::Bytes(bytes), post, action),
    ensures
        closes(pre, CloseReason::Protocol(ProtocolError::BadMagic), post, action),
{
}

} // verus!
