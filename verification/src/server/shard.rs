//! The state machine of one connection.
//!
//! A connection passes through the handshake, the negotiation of options and
//! the transmission of requests. The machine performs no input or output: the
//! host tells it what happened, and it answers with the bytes to send and
//! with what to do next. [`step_rel`] states, for every state and every
//! event, which answers are right; [`ServerShard::step`] gives one of them.
//!
//! The machine asks for a header piece by piece and looks at each piece
//! before it asks for the next: a peer that sends a wrong magic, or the code
//! of no option, is turned away at once and is not left waiting.

use crate::driver::{Driver, DriverImpl, Image, ImageDesc, ImageDescView, ImageImpl, ImageInfo};
use crate::endian::{
    be_bytes_u32, be_bytes_u64, be_u32, be_u64, get_be_u32, get_be_u64, put_be_u32, put_be_u64,
    put_bytes,
};
use crate::error::ErrorKind;
use crate::proto::{
    NbdClientFlag, NbdCmd, NbdErrno, NbdOpt, NbdOptReply, NbdTransFlag, IHAVEOPT,
    NBD_REQUEST_MAGIC,
};
use crate::server::config::{ServerConfig, ServerConfigView};
use crate::server::options::{
    abort_reply, is_list_answer, list_replies, no_such_export_reply, unknown_option_reply,
    unknown_option_text, OptionHandleState, OptionHandler,
};
use crate::server::state::{first_named, names_image, ServerState, ServerStateView};
use crate::text::string_from_utf8;
use crate::wire::{
    banner, export_name_reply_wire, opt_reply_wire, read_client_flags, simple_reply_wire,
    write_banner, ExportNameOptReply, OptReply, OptionHeader, ProtocolError, Request, SimpleReply,
    CLIENT_FLAGS_LEN, OPTION_CODE_LEN, OPTION_LENGTH_LEN, OPTION_MAGIC_LEN, REQUEST_FIELDS_LEN,
    REQUEST_MAGIC_LEN,
};
use vstd::prelude::*;
use vstd::utf8::{decode_utf8, valid_utf8};

verus! {

/// Why a connection ended.
#[derive(Debug, Clone, Copy, PartialEq, Eq, Structural)]
pub enum CloseReason {
    /// The client asked to disconnect.
    Disconnected,
    /// The negotiation was aborted: by the client, or because it asked for
    /// an export that is not there.
    Aborted,
    /// The client broke the protocol.
    Protocol(ProtocolError),
    /// The host could not open the image.
    OpenFailed(ErrorKind),
    /// The host reported something the connection was not waiting for.
    UnexpectedEvent,
}

/// Where a connection stands, and what it waits for.
#[derive(Debug, Clone, Copy, PartialEq, Eq, Structural)]
pub enum ShardPhase {
    /// Nothing was sent yet; waits for the connection to be established.
    Start,
    /// The banner was sent; waits for the client's flags.
    ClientFlags,
    /// Waits for the magic that begins an option.
    OptionMagic,
    /// The magic was right; waits for the code of the option.
    OptionCode,
    /// The code stands for this option; waits for the length of its payload.
    OptionLength(NbdOpt),
    /// Waits for the payload of the option with this header.
    OptionData(OptionHeader),
    /// Waits for the host to open the selected image.
    OpeningImage,
    /// Waits for the magic that begins a request.
    RequestMagic,
    /// The magic was right; waits for the rest of the header.
    RequestFields,
    /// Waits for the payload of the write request with this header.
    RequestData { flags: u16, cookie: u64, offset: u64, length: u32 },
    /// Waits for the host to finish the operation of the request with this
    /// cookie; `read` tells whether the operation returns data.
    ImageReply { cookie: u64, read: bool },
    /// The connection has ended.
    Closed,
}

/// An operation on the opened image that the host is asked to perform.
#[derive(Debug)]
pub enum ImageOp {
    Read { offset: u64, length: u32 },
    Write { offset: u64, data: Vec<u8> },
    Flush,
    Trim { offset: u64, length: u32 },
    WriteZeroes { offset: u64, length: u32 },
}

/// What an [`ImageOp`] says.
pub enum ImageOpView {
    Read { offset: u64, length: u32 },
    Write { offset: u64, data: Seq<u8> },
    Flush,
    Trim { offset: u64, length: u32 },
    WriteZeroes { offset: u64, length: u32 },
}

impl View for ImageOp {
    type V = ImageOpView;

    open spec fn view(&self) -> ImageOpView {
        match self {
            ImageOp::Read { offset, length } => ImageOpView::Read {
                offset: *offset,
                length: *length,
            },
            ImageOp::Write { offset, data } => ImageOpView::Write { offset: *offset, data: data@ },
            ImageOp::Flush => ImageOpView::Flush,
            ImageOp::Trim { offset, length } => ImageOpView::Trim {
                offset: *offset,
                length: *length,
            },
            ImageOp::WriteZeroes { offset, length } => ImageOpView::WriteZeroes {
                offset: *offset,
                length: *length,
            },
        }
    }
}

/// What the host is to do after it has sent the bytes of an action.
pub enum ShardNext<D: DriverImpl> {
    /// Read exactly this many bytes and report them.
    Read(usize),
    /// Open this image with this driver and report the image, or the failure.
    OpenImage(Driver<D>, ImageDesc),
    /// Perform this operation on the opened image and report its result.
    Image(ImageOp),
    /// Close the connection.
    Close(CloseReason),
}

/// What a [`ShardNext`] says.
pub enum NextView {
    Read(nat),
    OpenImage(Seq<char>, ImageDescView),
    Image(ImageOpView),
    Close(CloseReason),
}

impl<D: DriverImpl> View for ShardNext<D> {
    type V = NextView;

    open spec fn view(&self) -> NextView {
        match self {
            ShardNext::Read(n) => NextView::Read(*n as nat),
            ShardNext::OpenImage(driver, desc) => NextView::OpenImage(driver.spec_name(), desc@),
            ShardNext::Image(op) => NextView::Image(op@),
            ShardNext::Close(reason) => NextView::Close(*reason),
        }
    }
}

/// The answer of the machine to an event: bytes to send, then what to do.
pub struct ShardAction<D: DriverImpl> {
    pub send: Vec<u8>,
    pub next: ShardNext<D>,
}

/// What a [`ShardAction`] says.
pub struct ActionView {
    pub send: Seq<u8>,
    pub next: NextView,
}

impl<D: DriverImpl> View for ShardAction<D> {
    type V = ActionView;

    open spec fn view(&self) -> ActionView {
        ActionView { send: self.send@, next: self.next@ }
    }
}

/// What the host reports to the machine.
pub enum ShardEvent<I: ImageImpl> {
    /// The connection is established.
    Connected,
    /// The bytes that were asked for have been read.
    Bytes(Vec<u8>),
    /// The image that was asked for is open.
    ImageOpened(Image<I>),
    /// The image that was asked for could not be opened.
    ImageOpenFailed(ErrorKind),
    /// The operation that was asked for is done: with the data it returns,
    /// or with the way in which it failed.
    ImageDone(Result<Vec<u8>, ErrorKind>),
}

/// What a [`ShardEvent`] says.
pub enum EventView {
    Connected,
    Bytes(Seq<u8>),
    ImageOpened(Seq<char>, ImageInfo),
    ImageOpenFailed(ErrorKind),
    ImageDone(Result<Seq<u8>, ErrorKind>),
}

impl<I: ImageImpl> View for ShardEvent<I> {
    type V = EventView;

    open spec fn view(&self) -> EventView {
        match self {
            ShardEvent::Connected => EventView::Connected,
            ShardEvent::Bytes(bytes) => EventView::Bytes(bytes@),
            ShardEvent::ImageOpened(image) => EventView::ImageOpened(
                image.spec_name(),
                image.spec_info(),
            ),
            ShardEvent::ImageOpenFailed(e) => EventView::ImageOpenFailed(*e),
            ShardEvent::ImageDone(result) => EventView::ImageDone(
                match result {
                    Ok(data) => Ok(data@),
                    Err(e) => Err(*e),
                },
            ),
        }
    }
}

/// What a [`ServerShard`] holds.
pub struct ShardView {
    pub phase: ShardPhase,
    /// The name and the description of the opened image, once there is one.
    pub image: Option<(Seq<char>, ImageInfo)>,
    /// The transmission flags the server advertises.
    pub tx_flags: u16,
    /// The flags the client sent.
    pub client_flags: u32,
}

/// The connection ends for `reason`, and nothing is sent.
pub open spec fn closes(
    pre: ShardView,
    reason: CloseReason,
    post: ShardView,
    action: ActionView,
) -> bool {
    &&& post == ShardView { phase: ShardPhase::Closed, ..pre }
    &&& action == ActionView { send: Seq::<u8>::empty(), next: NextView::Close(reason) }
}

/// The connection enters `phase`, sends `send` and goes on with `next`.
pub open spec fn moves(
    pre: ShardView,
    phase: ShardPhase,
    send: Seq<u8>,
    next: NextView,
    post: ShardView,
    action: ActionView,
) -> bool {
    &&& post == ShardView { phase, ..pre }
    &&& action == ActionView { send, next }
}

/// An option was handled: `send` is sent, and the connection goes on as
/// `state` says. To continue is to wait for the next option; to end the
/// negotiation is to wait for the first request; to abort is to close the
/// connection once the reply is written.
pub open spec fn option_done(
    pre: ShardView,
    send: Seq<u8>,
    state: OptionHandleState,
    post: ShardView,
    action: ActionView,
) -> bool {
    match state {
        OptionHandleState::Continue => moves(
            pre,
            ShardPhase::OptionMagic,
            send,
            NextView::Read(OPTION_MAGIC_LEN as nat),
            post,
            action,
        ),
        OptionHandleState::End => moves(
            pre,
            ShardPhase::RequestMagic,
            send,
            NextView::Read(REQUEST_MAGIC_LEN as nat),
            post,
            action,
        ),
        OptionHandleState::Abort => moves(
            pre,
            ShardPhase::Closed,
            send,
            NextView::Close(CloseReason::Aborted),
            post,
            action,
        ),
    }
}

/// The bytes of some replies, one after the other.
pub open spec fn replies_wire(replies: Seq<OptReply>) -> Seq<u8>
    decreases replies.len(),
{
    if replies.len() == 0 {
        Seq::empty()
    } else {
        replies_wire(replies.drop_last()) + replies.last().wire()
    }
}

/// The canonical names of the exported images, in the order of the listing.
pub open spec fn image_names(state: ServerStateView) -> Seq<Seq<char>> {
    Seq::new(state.listing().len(), |i: int| state.listing()[i].1.full_name())
}

/// The connection is established: the server sends its banner and waits for
/// the client's flags.
pub open spec fn on_connected(
    pre: ShardView,
    config: ServerConfigView,
    post: ShardView,
    action: ActionView,
) -> bool {
    moves(
        pre,
        ShardPhase::ClientFlags,
        banner(config.handshake_flags),
        NextView::Read(CLIENT_FLAGS_LEN as nat),
        post,
        action,
    )
}

/// The client's flags have arrived. Without fixed-newstyle the connection
/// ends; else the flags are kept and the server waits for an option.
pub open spec fn on_client_flags(
    pre: ShardView,
    bytes: Seq<u8>,
    post: ShardView,
    action: ActionView,
) -> bool {
    if bytes.len() != CLIENT_FLAGS_LEN {
        closes(pre, CloseReason::Protocol(ProtocolError::ShortInput), post, action)
    } else if be_u32(bytes) & 1 != 1 {
        closes(pre, CloseReason::Protocol(ProtocolError::NotFixedNewstyle), post, action)
    } else {
        &&& post == ShardView {
            phase: ShardPhase::OptionMagic,
            client_flags: be_u32(bytes),
            ..pre
        }
        &&& action == ActionView {
            send: Seq::<u8>::empty(),
            next: NextView::Read(OPTION_MAGIC_LEN as nat),
        }
    }
}

/// The first eight bytes of an option have arrived. If they are not the
/// magic of an option the connection ends at once; else the server waits for
/// the code of the option.
pub open spec fn on_option_magic(
    pre: ShardView,
    bytes: Seq<u8>,
    post: ShardView,
    action: ActionView,
) -> bool {
    if bytes.len() != OPTION_MAGIC_LEN {
        closes(pre, CloseReason::Protocol(ProtocolError::ShortInput), post, action)
    } else if be_u64(bytes) != IHAVEOPT {
        closes(pre, CloseReason::Protocol(ProtocolError::BadMagic), post, action)
    } else {
        moves(
            pre,
            ShardPhase::OptionCode,
            Seq::<u8>::empty(),
            NextView::Read(OPTION_CODE_LEN as nat),
            post,
            action,
        )
    }
}

/// The code of an option has arrived. If it stands for no option the
/// connection ends at once; else the server waits for the length of the
/// payload.
pub open spec fn on_option_code(
    pre: ShardView,
    bytes: Seq<u8>,
    post: ShardView,
    action: ActionView,
) -> bool {
    if bytes.len() != OPTION_CODE_LEN {
        closes(pre, CloseReason::Protocol(ProtocolError::ShortInput), post, action)
    } else if forall|o: NbdOpt| o.code() != be_u32(bytes) {
        closes(pre, CloseReason::Protocol(ProtocolError::UnknownOption), post, action)
    } else {
        exists|o: NbdOpt|
            #[trigger] o.code() == be_u32(bytes) && moves(
                pre,
                ShardPhase::OptionLength(o),
                Seq::<u8>::empty(),
                NextView::Read(OPTION_LENGTH_LEN as nat),
                post,
                action,
            )
    }
}

/// The header of the option `option` whose last four bytes are `length`.
pub open spec fn option_header_bytes(option: NbdOpt, length: Seq<u8>) -> Seq<u8> {
    be_bytes_u64(IHAVEOPT) + be_bytes_u32(option.code()) + length
}

/// The header of a request whose bytes after the magic are `fields`.
pub open spec fn request_header_bytes(fields: Seq<u8>) -> Seq<u8> {
    be_bytes_u32(NBD_REQUEST_MAGIC) + fields
}

/// The header of an option is complete. A header that breaks a rule ends the
/// connection; else the server waits for the payload it announces.
pub open spec fn on_option_header(
    pre: ShardView,
    bytes: Seq<u8>,
    post: ShardView,
    action: ActionView,
) -> bool {
    match OptionHeader::fault(bytes) {
        Some(e) => closes(pre, CloseReason::Protocol(e), post, action),
        None => exists|h: OptionHeader|
            #[trigger] h.wire() == bytes && moves(
                pre,
                ShardPhase::OptionData(h),
                Seq::<u8>::empty(),
                NextView::Read(h.length as nat),
                post,
                action,
            ),
    }
}

/// An export name has arrived. A name that is not UTF-8 ends the connection.
/// A name of no image is answered with an error, and the session ends. Else
/// the host is asked to open the first image of that name.
pub open spec fn on_export_name(
    pre: ShardView,
    state: ServerStateView,
    opt: NbdOpt,
    data: Seq<u8>,
    post: ShardView,
    action: ActionView,
) -> bool {
    if !valid_utf8(data) {
        closes(pre, CloseReason::Protocol(ProtocolError::BadExportName), post, action)
    } else if exists|at: int| first_named(state.listing(), decode_utf8(data), at) {
        let at = choose|at: int| first_named(state.listing(), decode_utf8(data), at);
        moves(
            pre,
            ShardPhase::OpeningImage,
            Seq::<u8>::empty(),
            NextView::OpenImage(state.listing()[at].0, state.listing()[at].1),
            post,
            action,
        )
    } else {
        option_done(
            pre,
            opt_reply_wire(opt, NbdOptReply::ErrUnknown, Seq::<u8>::empty()),
            OptionHandleState::Abort,
            post,
            action,
        )
    }
}

/// A list option has arrived: the server sends one reply per exported image
/// and an acknowledgement, and waits for the next option.
pub open spec fn on_list(
    pre: ShardView,
    state: ServerStateView,
    opt: NbdOpt,
    post: ShardView,
    action: ActionView,
) -> bool {
    exists|replies: Seq<OptReply>|
        #[trigger] is_list_answer(image_names(state), opt, replies) && option_done(
            pre,
            replies_wire(replies),
            OptionHandleState::Continue,
            post,
            action,
        )
}

/// The payload of an option has arrived, and the handler the option is
/// mapped to answers it.
pub open spec fn on_option_data(
    pre: ShardView,
    config: ServerConfigView,
    state: ServerStateView,
    h: OptionHeader,
    data: Seq<u8>,
    post: ShardView,
    action: ActionView,
) -> bool {
    if data.len() != h.length {
        closes(pre, CloseReason::Protocol(ProtocolError::ShortInput), post, action)
    } else {
        match config.handler(h.option) {
            OptionHandler::Unknown => option_done(
                pre,
                opt_reply_wire(
                    h.option,
                    NbdOptReply::ErrUnsup,
                    unknown_option_text(h.option.code()),
                ),
                OptionHandleState::Continue,
                post,
                action,
            ),
            OptionHandler::Abort => option_done(
                pre,
                opt_reply_wire(h.option, NbdOptReply::Ack, Seq::<u8>::empty()),
                OptionHandleState::Abort,
                post,
                action,
            ),
            OptionHandler::List => on_list(pre, state, h.option, post, action),
            OptionHandler::ExportName => on_export_name(pre, state, h.option, data, post, action),
        }
    }
}

/// The selected image is open: the server keeps it, tells the client its
/// size and the transmission flags, pads the answer unless the client asked
/// not to, and waits for the first request.
pub open spec fn on_image_opened(
    pre: ShardView,
    name: Seq<char>,
    info: ImageInfo,
    post: ShardView,
    action: ActionView,
) -> bool {
    option_done(
        ShardView { image: Some((name, info)), ..pre },
        export_name_reply_wire(info.size, pre.tx_flags, pre.client_flags & 2 == 2),
        OptionHandleState::End,
        post,
        action,
    )
}

/// A complete request is dispatched on its command. A read, a write, a
/// flush, a trim and a write of zeros go to the host; a disconnect ends the
/// connection without a reply; every other command is answered as not
/// supported.
pub open spec fn on_request(
    pre: ShardView,
    cmd: NbdCmd,
    cookie: u64,
    offset: u64,
    length: u32,
    data: Seq<u8>,
    post: ShardView,
    action: ActionView,
) -> bool {
    let nothing = Seq::<u8>::empty();
    let wait = ShardPhase::ImageReply { cookie, read: cmd == NbdCmd::Read };
    match cmd {
        NbdCmd::Read => moves(
            pre,
            wait,
            nothing,
            NextView::Image(ImageOpView::Read { offset, length }),
            post,
            action,
        ),
        NbdCmd::Write => moves(
            pre,
            wait,
            nothing,
            NextView::Image(ImageOpView::Write { offset, data }),
            post,
            action,
        ),
        NbdCmd::Disc => closes(pre, CloseReason::Disconnected, post, action),
        NbdCmd::Flush => moves(pre, wait, nothing, NextView::Image(ImageOpView::Flush), post, action),
        NbdCmd::Trim => moves(
            pre,
            wait,
            nothing,
            NextView::Image(ImageOpView::Trim { offset, length }),
            post,
            action,
        ),
        NbdCmd::WriteZeroes => moves(
            pre,
            wait,
            nothing,
            NextView::Image(ImageOpView::WriteZeroes { offset, length }),
            post,
            action,
        ),
        NbdCmd::Cache | NbdCmd::BlockStatus | NbdCmd::Resize => moves(
            pre,
            ShardPhase::RequestMagic,
            simple_reply_wire(NbdErrno::NotSup.code(), cookie, nothing),
            NextView::Read(REQUEST_MAGIC_LEN as nat),
            post,
            action,
        ),
    }
}

/// The first four bytes of a request have arrived. If they are not the
/// magic of a request the connection ends at once; else the server waits for
/// the rest of the header.
pub open spec fn on_request_magic(
    pre: ShardView,
    bytes: Seq<u8>,
    post: ShardView,
    action: ActionView,
) -> bool {
    if bytes.len() != REQUEST_MAGIC_LEN {
        closes(pre, CloseReason::Protocol(ProtocolError::ShortInput), post, action)
    } else if be_u32(bytes) != NBD_REQUEST_MAGIC {
        closes(pre, CloseReason::Protocol(ProtocolError::BadMagic), post, action)
    } else {
        moves(
            pre,
            ShardPhase::RequestFields,
            Seq::<u8>::empty(),
            NextView::Read(REQUEST_FIELDS_LEN as nat),
            post,
            action,
        )
    }
}

/// The header of a request is complete. A header that breaks a rule ends the
/// connection. A write waits for the payload its header announces; every
/// other request is complete and is dispatched.
pub open spec fn on_request_header(
    pre: ShardView,
    bytes: Seq<u8>,
    post: ShardView,
    action: ActionView,
) -> bool {
    match Request::fault(bytes) {
        Some(e) => closes(pre, CloseReason::Protocol(e), post, action),
        None => exists|req: Request|
            #[trigger] req.header_wire() == bytes && if req.cmd == NbdCmd::Write {
                moves(
                    pre,
                    ShardPhase::RequestData {
                        flags: req.flags,
                        cookie: req.cookie,
                        offset: req.offset,
                        length: req.length,
                    },
                    Seq::<u8>::empty(),
                    NextView::Read(req.length as nat),
                    post,
                    action,
                )
            } else {
                on_request(
                    pre,
                    req.cmd,
                    req.cookie,
                    req.offset,
                    req.length,
                    Seq::<u8>::empty(),
                    post,
                    action,
                )
            },
    }
}

/// The payload of a write has arrived: the request is complete and is
/// dispatched.
pub open spec fn on_request_data(
    pre: ShardView,
    cookie: u64,
    offset: u64,
    length: u32,
    data: Seq<u8>,
    post: ShardView,
    action: ActionView,
) -> bool {
    if data.len() != length {
        closes(pre, CloseReason::Protocol(ProtocolError::ShortInput), post, action)
    } else {
        on_request(pre, NbdCmd::Write, cookie, offset, length, data, post, action)
    }
}

/// The host has finished an operation: the server sends a simple reply with
/// the cookie of the request, with the data if the request was a read that
/// succeeded, or with the error number of the failure, and waits for the
/// next request.
pub open spec fn on_image_done(
    pre: ShardView,
    cookie: u64,
    read: bool,
    result: Result<Seq<u8>, ErrorKind>,
    post: ShardView,
    action: ActionView,
) -> bool {
    let reply = match result {
        Ok(data) => simple_reply_wire(
            0,
            cookie,
            if read {
                data
            } else {
                Seq::<u8>::empty()
            },
        ),
        Err(e) => simple_reply_wire(e.errno().code(), cookie, Seq::<u8>::empty()),
    };
    moves(
        pre,
        ShardPhase::RequestMagic,
        reply,
        NextView::Read(REQUEST_MAGIC_LEN as nat),
        post,
        action,
    )
}

/// The answers that are right when `event` is reported to a connection in
/// the state `pre`: `post` is the state after it, `action` what the host is
/// told. An event the connection is not waiting for ends it.
pub open spec fn step_rel(
    pre: ShardView,
    config: ServerConfigView,
    state: ServerStateView,
    event: EventView,
    post: ShardView,
    action: ActionView,
) -> bool {
    match (pre.phase, event) {
        (ShardPhase::Start, EventView::Connected) => on_connected(pre, config, post, action),
        (ShardPhase::ClientFlags, EventView::Bytes(bytes)) => on_client_flags(
            pre,
            bytes,
            post,
            action,
        ),
        (ShardPhase::OptionMagic, EventView::Bytes(bytes)) => on_option_magic(
            pre,
            bytes,
            post,
            action,
        ),
        (ShardPhase::OptionCode, EventView::Bytes(bytes)) => on_option_code(
            pre,
            bytes,
            post,
            action,
        ),
        (ShardPhase::OptionLength(option), EventView::Bytes(bytes)) => on_option_header(
            pre,
            option_header_bytes(option, bytes),
            post,
            action,
        ),
        (ShardPhase::OptionData(h), EventView::Bytes(bytes)) => on_option_data(
            pre,
            config,
            state,
            h,
            bytes,
            post,
            action,
        ),
        (ShardPhase::OpeningImage, EventView::ImageOpened(name, info)) => on_image_opened(
            pre,
            name,
            info,
            post,
            action,
        ),
        (ShardPhase::OpeningImage, EventView::ImageOpenFailed(e)) => closes(
            pre,
            CloseReason::OpenFailed(e),
            post,
            action,
        ),
        (ShardPhase::RequestMagic, EventView::Bytes(bytes)) => on_request_magic(
            pre,
            bytes,
            post,
            action,
        ),
        (ShardPhase::RequestFields, EventView::Bytes(bytes)) => on_request_header(
            pre,
            request_header_bytes(bytes),
            post,
            action,
        ),
        (
            ShardPhase::RequestData { flags, cookie, offset, length },
            EventView::Bytes(bytes),
        ) => on_request_data(pre, cookie, offset, length, bytes, post, action),
        (ShardPhase::ImageReply { cookie, read }, EventView::ImageDone(result)) => on_image_done(
            pre,
            cookie,
            read,
            result,
            post,
            action,
        ),
        _ => closes(pre, CloseReason::UnexpectedEvent, post, action),
    }
}

/// Writes some replies, one after the other.
fn write_replies(replies: &Vec<OptReply>) -> (r: Vec<u8>)
    requires
        forall|i: int| 0 <= i < replies@.len() ==> (#[trigger] replies@[i]).data@.len() <= u32::MAX,
    ensures
        r@ == replies_wire(replies@),
{
    let mut out: Vec<u8> = Vec::new();
    let mut i: usize = 0;
    assert(replies@.take(0) =~= Seq::<OptReply>::empty());
    while i < replies.len()
        invariant
            i <= replies.len(),
            forall|j: int|
                0 <= j < replies@.len() ==> (#[trigger] replies@[j]).data@.len() <= u32::MAX,
            out@ == replies_wire(replies@.take(i as int)),
        decreases replies.len() - i,
    {
        replies[i].nbd_write(&mut out);
        proof {
            let upto = replies@.take(i + 1);
            assert(upto.drop_last() =~= replies@.take(i as int));
            assert(upto.last() == replies@[i as int]);
        }
        i += 1;
    }
    assert(replies@.take(i as int) =~= replies@);
    out
}

/// The state of one connection.
pub struct ServerShard<I: ImageImpl> {
    phase: ShardPhase,
    image: Option<Image<I>>,
    tx_flags: NbdTransFlag,
    client_flags: NbdClientFlag,
}

impl<I: ImageImpl> ServerShard<I> {
    /// What the connection holds.
    pub closed spec fn view(&self) -> ShardView {
        ShardView {
            phase: self.phase,
            image: match self.image {
                Some(image) => Some((image.spec_name(), image.spec_info())),
                None => None,
            },
            tx_flags: self.tx_flags@,
            client_flags: self.client_flags@,
        }
    }

    /// A connection on which nothing has happened: no image is open, the
    /// client's flags are unknown, and the server will advertise the default
    /// transmission flags.
    pub fn new() -> (r: Self)
        ensures
            r@ == (ShardView {
                phase: ShardPhase::Start,
                image: None,
                tx_flags: 0x0065,
                client_flags: 0,
            }),
    {
        ServerShard {
            phase: ShardPhase::Start,
            image: None,
            tx_flags: NbdTransFlag::default_advertised(),
            client_flags: NbdClientFlag::empty(),
        }
    }

    /// Where the connection stands.
    pub fn phase(&self) -> (r: ShardPhase)
        ensures
            r == self@.phase,
    {
        self.phase
    }

    /// The opened image, once there is one.
    pub fn image(&self) -> (r: Option<&Image<I>>)
        ensures
            match r {
                Some(image) => self@.image == Some((image.spec_name(), image.spec_info())),
                None => self@.image is None,
            },
    {
        self.image.as_ref()
    }

    /// The transmission flags the server advertises.
    pub fn tx_flags(&self) -> (r: NbdTransFlag)
        ensures
            r@ == self@.tx_flags,
    {
        self.tx_flags
    }

    /// The flags the client sent.
    pub fn client_flags(&self) -> (r: NbdClientFlag)
        ensures
            r@ == self@.client_flags,
    {
        self.client_flags
    }

    fn close<D: DriverImpl>(&mut self, reason: CloseReason) -> (action: ShardAction<D>)
        ensures
            closes(old(self)@, reason, final(self)@, action@),
    {
        self.phase = ShardPhase::Closed;
        ShardAction { send: Vec::new(), next: ShardNext::Close(reason) }
    }

    fn go<D: DriverImpl>(&mut self, phase: ShardPhase, send: Vec<u8>, next: ShardNext<D>) -> (action:
        ShardAction<D>)
        ensures
            moves(old(self)@, phase, send@, next@, final(self)@, action@),
    {
        self.phase = phase;
        ShardAction { send, next }
    }

    fn option_handled<D: DriverImpl>(&mut self, send: Vec<u8>, state: OptionHandleState) -> (action:
        ShardAction<D>)
        ensures
            option_done(old(self)@, send@, state, final(self)@, action@),
    {
        match state {
            OptionHandleState::Continue => self.go(
                ShardPhase::OptionMagic,
                send,
                ShardNext::Read(OPTION_MAGIC_LEN),
            ),
            OptionHandleState::End => self.go(
                ShardPhase::RequestMagic,
                send,
                ShardNext::Read(REQUEST_MAGIC_LEN),
            ),
            OptionHandleState::Abort => self.go(
                ShardPhase::Closed,
                send,
                ShardNext::Close(CloseReason::Aborted),
            ),
        }
    }

    fn connected<D: DriverImpl>(&mut self, config: &ServerConfig) -> (action: ShardAction<D>)
        ensures
            on_connected(old(self)@, config@, final(self)@, action@),
    {
        let mut send: Vec<u8> = Vec::new();
        write_banner(&mut send, config.handshake_flags());
        self.go(ShardPhase::ClientFlags, send, ShardNext::Read(CLIENT_FLAGS_LEN))
    }

    fn client_flags_read<D: DriverImpl>(&mut self, bytes: Vec<u8>) -> (action: ShardAction<D>)
        ensures
            on_client_flags(old(self)@, bytes@, final(self)@, action@),
    {
        match read_client_flags(bytes.as_slice()) {
            Err(_) => self.close(CloseReason::Protocol(ProtocolError::ShortInput)),
            Ok(flags) => {
                proof {
                    crate::endian::lemma_be_roundtrip(0, flags@, 0);
                }
                if !flags.contains(NbdClientFlag::fixed_newstyle()) {
                    self.close(CloseReason::Protocol(ProtocolError::NotFixedNewstyle))
                } else {
                    self.client_flags = flags;
                    self.go(
                        ShardPhase::OptionMagic,
                        Vec::new(),
                        ShardNext::Read(OPTION_MAGIC_LEN),
                    )
                }
            },
        }
    }

    fn option_magic_read<D: DriverImpl>(&mut self, bytes: Vec<u8>) -> (action: ShardAction<D>)
        ensures
            on_option_magic(old(self)@, bytes@, final(self)@, action@),
    {
        if bytes.len() != OPTION_MAGIC_LEN {
            return self.close(CloseReason::Protocol(ProtocolError::ShortInput));
        }
        assert(bytes@.subrange(0, 8) =~= bytes@);
        if get_be_u64(bytes.as_slice(), 0) != IHAVEOPT {
            self.close(CloseReason::Protocol(ProtocolError::BadMagic))
        } else {
            self.go(ShardPhase::OptionCode, Vec::new(), ShardNext::Read(OPTION_CODE_LEN))
        }
    }

    fn option_code_read<D: DriverImpl>(&mut self, bytes: Vec<u8>) -> (action: ShardAction<D>)
        ensures
            on_option_code(old(self)@, bytes@, final(self)@, action@),
    {
        if bytes.len() != OPTION_CODE_LEN {
            return self.close(CloseReason::Protocol(ProtocolError::ShortInput));
        }
        assert(bytes@.subrange(0, 4) =~= bytes@);
        match NbdOpt::from_u32(get_be_u32(bytes.as_slice(), 0)) {
            None => self.close(CloseReason::Protocol(ProtocolError::UnknownOption)),
            Some(option) => {
                assert(option.code() == be_u32(bytes@));
                self.go(
                    ShardPhase::OptionLength(option),
                    Vec::new(),
                    ShardNext::Read(OPTION_LENGTH_LEN),
                )
            },
        }
    }

    fn option_length_read<D: DriverImpl>(&mut self, option: NbdOpt, length: Vec<u8>) -> (action:
        ShardAction<D>)
        ensures
            on_option_header(
                old(self)@,
                option_header_bytes(option, length@),
                final(self)@,
                action@,
            ),
    {
        let mut header: Vec<u8> = Vec::new();
        put_be_u64(&mut header, IHAVEOPT);
        put_be_u32(&mut header, option.code());
        put_bytes(&mut header, length.as_slice());
        assert(header@ =~= option_header_bytes(option, length@));
        self.option_header_read(header)
    }

    fn option_header_read<D: DriverImpl>(&mut self, bytes: Vec<u8>) -> (action: ShardAction<D>)
        ensures
            on_option_header(old(self)@, bytes@, final(self)@, action@),
    {
        match OptionHeader::nbd_read(bytes.as_slice()) {
            Err(e) => self.close(CloseReason::Protocol(e)),
            Ok(h) => {
                assert(h.wire() == bytes@);
                self.go(ShardPhase::OptionData(h), Vec::new(), ShardNext::Read(h.length as usize))
            },
        }
    }

    fn export_name<D: DriverImpl>(
        &mut self,
        state: &ServerState<D>,
        opt: NbdOpt,
        data: Vec<u8>,
    ) -> (action: ShardAction<D>)
        ensures
            on_export_name(old(self)@, state@, opt, data@, final(self)@, action@),
    {
        let ghost listing = state@.listing();
        let ghost text = decode_utf8(data@);
        let name = match string_from_utf8(data) {
            Some(name) => name,
            None => {
                return self.close(CloseReason::Protocol(ProtocolError::BadExportName));
            },
        };
        match state.find_image(name.as_str()) {
            Some((driver, desc)) => {
                proof {
                    let found = choose|at: int|
                        first_named(listing, text, at) && (driver.spec_name(), desc@)
                            == #[trigger] listing[at];
                    let chosen = choose|at: int| first_named(listing, text, at);
                    assert(first_named(listing, text, found));
                    assert(first_named(listing, text, chosen));
                    assert(found == chosen) by {
                        if found < chosen {
                            assert(!names_image(text, listing[found].1));
                        }
                        if chosen < found {
                            assert(!names_image(text, listing[chosen].1));
                        }
                    }
                }
                self.go(
                    ShardPhase::OpeningImage,
                    Vec::new(),
                    ShardNext::OpenImage(driver, desc),
                )
            },
            None => {
                let mut send: Vec<u8> = Vec::new();
                no_such_export_reply(opt).nbd_write(&mut send);
                self.option_handled(send, OptionHandleState::Abort)
            },
        }
    }

    fn list<D: DriverImpl>(&mut self, state: &ServerState<D>, opt: NbdOpt) -> (action: ShardAction<
        D,
    >)
        ensures
            on_list(old(self)@, state@, opt, final(self)@, action@),
    {
        let names = state.list_images_full_name();
        let replies = list_replies(&names, opt);
        let send = write_replies(&replies);
        let action = self.option_handled(send, OptionHandleState::Continue);
        proof {
            assert(Seq::new(names@.len(), |i: int| names@[i]@) =~= image_names(state@));
            assert(is_list_answer(image_names(state@), opt, replies@));
        }
        action
    }

    fn image_opened<D: DriverImpl>(&mut self, image: Image<I>) -> (action: ShardAction<D>)
        ensures
            on_image_opened(
                old(self)@,
                image.spec_name(),
                image.spec_info(),
                final(self)@,
                action@,
            ),
    {
        let info = image.info();
        let reply = ExportNameOptReply {
            size: info.size,
            tx_flags: self.tx_flags,
            no_zeros: self.client_flags.contains(NbdClientFlag::no_zeroes()),
        };
        let mut send: Vec<u8> = Vec::new();
        reply.nbd_write(&mut send);
        self.image = Some(image);
        self.option_handled(send, OptionHandleState::End)
    }

    fn request<D: DriverImpl>(&mut self, req: Request) -> (action: ShardAction<D>)
        requires
            req.wf(),
        ensures
            on_request(
                old(self)@,
                req.cmd,
                req.cookie,
                req.offset,
                req.length,
                req.data@,
                final(self)@,
                action@,
            ),
    {
        let cookie = req.cookie;
        let offset = req.offset;
        let length = req.length;
        let wait = ShardPhase::ImageReply { cookie, read: false };
        match req.cmd {
            NbdCmd::Read => self.go(
                ShardPhase::ImageReply { cookie, read: true },
                Vec::new(),
                ShardNext::Image(ImageOp::Read { offset, length }),
            ),
            NbdCmd::Write => self.go(
                wait,
                Vec::new(),
                ShardNext::Image(ImageOp::Write { offset, data: req.data }),
            ),
            NbdCmd::Disc => self.close(CloseReason::Disconnected),
            NbdCmd::Flush => self.go(wait, Vec::new(), ShardNext::Image(ImageOp::Flush)),
            NbdCmd::Trim => self.go(
                wait,
                Vec::new(),
                ShardNext::Image(ImageOp::Trim { offset, length }),
            ),
            NbdCmd::WriteZeroes => self.go(
                wait,
                Vec::new(),
                ShardNext::Image(ImageOp::WriteZeroes { offset, length }),
            ),
            NbdCmd::Cache | NbdCmd::BlockStatus | NbdCmd::Resize => {
                let reply = SimpleReply {
                    error: NbdErrno::NotSup.code(),
                    cookie,
                    data: Vec::new(),
                };
                let mut send: Vec<u8> = Vec::new();
                reply.nbd_write(&mut send);
                self.go(ShardPhase::RequestMagic, send, ShardNext::Read(REQUEST_MAGIC_LEN))
            },
        }
    }

    fn request_magic_read<D: DriverImpl>(&mut self, bytes: Vec<u8>) -> (action: ShardAction<D>)
        ensures
            on_request_magic(old(self)@, bytes@, final(self)@, action@),
    {
        if bytes.len() != REQUEST_MAGIC_LEN {
            return self.close(CloseReason::Protocol(ProtocolError::ShortInput));
        }
        assert(bytes@.subrange(0, 4) =~= bytes@);
        if get_be_u32(bytes.as_slice(), 0) != NBD_REQUEST_MAGIC {
            self.close(CloseReason::Protocol(ProtocolError::BadMagic))
        } else {
            self.go(ShardPhase::RequestFields, Vec::new(), ShardNext::Read(REQUEST_FIELDS_LEN))
        }
    }

    fn request_fields_read<D: DriverImpl>(&mut self, fields: Vec<u8>) -> (action: ShardAction<D>)
        ensures
            on_request_header(
                old(self)@,
                request_header_bytes(fields@),
                final(self)@,
                action@,
            ),
    {
        let mut header: Vec<u8> = Vec::new();
        put_be_u32(&mut header, NBD_REQUEST_MAGIC);
        put_bytes(&mut header, fields.as_slice());
        assert(header@ =~= request_header_bytes(fields@));
        self.request_header_read(header)
    }

    fn request_header_read<D: DriverImpl>(&mut self, bytes: Vec<u8>) -> (action: ShardAction<D>)
        ensures
            on_request_header(old(self)@, bytes@, final(self)@, action@),
    {
        match Request::nbd_read(bytes.as_slice()) {
            Err(e) => self.close(CloseReason::Protocol(e)),
            Ok(req) => {
                assert(req.header_wire() == bytes@);
                assert(req.data@ =~= Seq::<u8>::empty());
                if matches!(req.cmd, NbdCmd::Write) {
                    self.go(
                        ShardPhase::RequestData {
                            flags: req.flags,
                            cookie: req.cookie,
                            offset: req.offset,
                            length: req.length,
                        },
                        Vec::new(),
                        ShardNext::Read(req.length as usize),
                    )
                } else {
                    self.request(req)
                }
            },
        }
    }

    fn request_data_read<D: DriverImpl>(
        &mut self,
        flags: u16,
        cookie: u64,
        offset: u64,
        length: u32,
        data: Vec<u8>,
    ) -> (action: ShardAction<D>)
        ensures
            on_request_data(old(self)@, cookie, offset, length, data@, final(self)@, action@),
    {
        if data.len() != length as usize {
            self.close(CloseReason::Protocol(ProtocolError::ShortInput))
        } else {
            self.request(Request { flags, cmd: NbdCmd::Write, cookie, offset, length, data })
        }
    }

    fn image_done<D: DriverImpl>(
        &mut self,
        cookie: u64,
        read: bool,
        result: Result<Vec<u8>, ErrorKind>,
    ) -> (action: ShardAction<D>)
        ensures
            on_image_done(
                old(self)@,
                cookie,
                read,
                match result {
                    Ok(data) => Ok(data@),
                    Err(e) => Err(e),
                },
                final(self)@,
                action@,
            ),
    {
        let reply = match result {
            Ok(data) => SimpleReply {
                error: 0,
                cookie,
                data: if read {
                    data
                } else {
                    Vec::new()
                },
            },
            Err(e) => SimpleReply { error: e.errno().code(), cookie, data: Vec::new() },
        };
        let mut send: Vec<u8> = Vec::new();
        reply.nbd_write(&mut send);
        self.go(ShardPhase::RequestMagic, send, ShardNext::Read(REQUEST_MAGIC_LEN))
    }

    /// Reports `event` to the connection. The connection moves on, and the
    /// host is told which bytes to send and what to do after that, as
    /// [`step_rel`] lays down.
    pub fn step<D: DriverImpl>(
        &mut self,
        config: &ServerConfig,
        state: &ServerState<D>,
        event: ShardEvent<I>,
    ) -> (action: ShardAction<D>)
        ensures
            step_rel(old(self)@, config@, state@, event@, final(self)@, action@),
    {
        let unexpected = CloseReason::UnexpectedEvent;
        match event {
            ShardEvent::Connected => match self.phase {
                ShardPhase::Start => self.connected(config),
                _ => self.close(unexpected),
            },
            ShardEvent::Bytes(bytes) => match self.phase {
                ShardPhase::ClientFlags => self.client_flags_read(bytes),
                ShardPhase::OptionMagic => self.option_magic_read(bytes),
                ShardPhase::OptionCode => self.option_code_read(bytes),
                ShardPhase::OptionLength(option) => self.option_length_read(option, bytes),
                ShardPhase::OptionData(h) => config.handle_option(self, state, h, bytes),
                ShardPhase::RequestMagic => self.request_magic_read(bytes),
                ShardPhase::RequestFields => self.request_fields_read(bytes),
                ShardPhase::RequestData { flags, cookie, offset, length } => self.request_data_read(
                    flags,
                    cookie,
                    offset,
                    length,
                    bytes,
                ),
                _ => self.close(unexpected),
            },
            ShardEvent::ImageOpened(image) => match self.phase {
                ShardPhase::OpeningImage => self.image_opened(image),
                _ => self.close(unexpected),
            },
            ShardEvent::ImageOpenFailed(e) => match self.phase {
                ShardPhase::OpeningImage => self.close(CloseReason::OpenFailed(e)),
                _ => self.close(unexpected),
            },
            ShardEvent::ImageDone(result) => match self.phase {
                ShardPhase::ImageReply { cookie, read } => self.image_done(cookie, read, result),
                _ => self.close(unexpected),
            },
        }
    }
}

impl ServerConfig {
    /// Answers the option with the header `h` and the payload `data` through
    /// the handler the option is mapped to.
    fn handle_option<D: DriverImpl, I: ImageImpl>(
        &self,
        server_shard: &mut ServerShard<I>,
        state: &ServerState<D>,
        h: OptionHeader,
        data: Vec<u8>,
    ) -> (action: ShardAction<D>)
        ensures
            on_option_data(
                old(server_shard)@,
                self@,
                state@,
                h,
                data@,
                final(server_shard)@,
                action@,
            ),
    {
        if data.len() != h.length as usize {
            return server_shard.close(CloseReason::Protocol(ProtocolError::ShortInput));
        }
        let opt = h.option;
        match self.handler(opt) {
            OptionHandler::Unknown => {
                let mut send: Vec<u8> = Vec::new();
                unknown_option_reply(opt).nbd_write(&mut send);
                server_shard.option_handled(send, OptionHandleState::Continue)
            },
            OptionHandler::Abort => {
                let mut send: Vec<u8> = Vec::new();
                abort_reply(opt).nbd_write(&mut send);
                server_shard.option_handled(send, OptionHandleState::Abort)
            },
            OptionHandler::List => server_shard.list(state, opt),
            OptionHandler::ExportName => server_shard.export_name(state, opt, data),
        }
    }
}

} // verus!
