//! The protocol data units and their layout on the wire.
//!
//! Each unit has a spec function `wire` that gives its bytes. Encoders append
//! exactly those bytes; decoders accept exactly the byte strings that are the
//! `wire` of some unit and name the first rule a rejected string breaks.

use crate::endian::{
    be_bytes_u16, be_bytes_u32, be_bytes_u64, be_u16, be_u32, be_u64, get_be_u16, get_be_u32,
    get_be_u64, lemma_be_bytes_of_read, lemma_be_roundtrip, put_be_i32, put_be_u16, put_be_u32,
    put_be_u64, put_bytes, put_zeros, twos_complement_u32,
};
use crate::proto::{
    lemma_codes_injective, NbdClientFlag, NbdCmd, NbdHandshakeFlag, NbdOpt, NbdOptReply,
    NbdTransFlag, IHAVEOPT, INIT_PASSWD, MAX_OPTION_DATA_LEN, NBD_OPT_REPLY_MAGIC,
    NBD_REQUEST_MAGIC, NBD_SIMPLE_REPLY_MAGIC,
};
use vstd::prelude::*;

verus! {

/// The ways in which a peer can break the protocol. Each one ends the
/// connection.
#[derive(Debug, Clone, Copy, PartialEq, Eq, Structural)]
pub enum ProtocolError {
    /// Fewer or more bytes than the unit has.
    ShortInput,
    /// A magic number is not the expected one.
    BadMagic,
    /// The option code stands for no option.
    UnknownOption,
    /// The command code stands for no command.
    UnknownCommand,
    /// The option announces more payload than the server accepts.
    OptionTooLarge,
    /// The client did not offer fixed-newstyle negotiation.
    NotFixedNewstyle,
    /// An export name that is not UTF-8.
    BadExportName,
}

/// Bytes of the banner.
pub const BANNER_LEN: usize = 18;

/// Bytes of the client's answer to the banner.
pub const CLIENT_FLAGS_LEN: usize = 4;

/// Bytes of an option request before its payload.
pub const OPTION_HEADER_LEN: usize = 16;

/// Bytes of the magic that begins an option request.
pub const OPTION_MAGIC_LEN: usize = 8;

/// Bytes of the code of an option, which follows the magic.
pub const OPTION_CODE_LEN: usize = 4;

/// Bytes of the payload length of an option, which follows the code.
pub const OPTION_LENGTH_LEN: usize = 4;

/// Bytes of a transmission request before its payload.
pub const REQUEST_HEADER_LEN: usize = 28;

/// Bytes of the magic that begins a transmission request.
pub const REQUEST_MAGIC_LEN: usize = 4;

/// Bytes of the header of a transmission request after the magic.
pub const REQUEST_FIELDS_LEN: usize = 24;

/// Zero bytes that pad the answer to an export name.
pub const EXPORT_NAME_PADDING: usize = 124;

/// `n` zero bytes.
pub open spec fn zeros(n: nat) -> Seq<u8> {
    Seq::new(n, |i: int| 0u8)
}

/// What the server says first: both magics, then its handshake flags.
pub open spec fn banner(handshake_flags: u16) -> Seq<u8> {
    be_bytes_u64(INIT_PASSWD) + be_bytes_u64(IHAVEOPT) + be_bytes_u16(handshake_flags)
}

/// Appends the banner.
pub fn write_banner(out: &mut Vec<u8>, handshake_flags: NbdHandshakeFlag)
    ensures
        final(out)@ == old(out)@ + banner(handshake_flags@),
{
    put_be_u64(out, INIT_PASSWD);
    put_be_u64(out, IHAVEOPT);
    put_be_u16(out, handshake_flags.bits());
    assert(out@ =~= old(out)@ + banner(handshake_flags@));
}

/// The client's flags, from the four bytes that carry them.
pub fn read_client_flags(bytes: &[u8]) -> (r: Result<NbdClientFlag, ProtocolError>)
    ensures
        match r {
            Ok(flags) => bytes@ == be_bytes_u32(flags@),
            Err(e) => e == ProtocolError::ShortInput && bytes.len() != CLIENT_FLAGS_LEN,
        },
{
    if bytes.len() != CLIENT_FLAGS_LEN {
        return Err(ProtocolError::ShortInput);
    }
    let v = get_be_u32(bytes, 0);
    proof {
        assert(bytes@.subrange(0, 4) =~= bytes@);
        lemma_be_bytes_of_read(bytes@);
    }
    Ok(NbdClientFlag::from_bits_retain(v))
}

/// The fixed part of an option request.
#[derive(Debug, Clone, Copy, PartialEq, Eq, Structural)]
pub struct OptionHeader {
    pub option: NbdOpt,
    pub length: u32,
}

impl OptionHeader {
    /// Magic, option code, payload length.
    pub open spec fn wire(self) -> Seq<u8> {
        be_bytes_u64(IHAVEOPT) + be_bytes_u32(self.option.code()) + be_bytes_u32(self.length)
    }

    /// The first rule that `bytes` breaks, if any.
    pub open spec fn fault(bytes: Seq<u8>) -> Option<ProtocolError> {
        if bytes.len() != OPTION_HEADER_LEN {
            Some(ProtocolError::ShortInput)
        } else if be_u64(bytes.subrange(0, 8)) != IHAVEOPT {
            Some(ProtocolError::BadMagic)
        } else if forall|o: NbdOpt| o.code() != be_u32(bytes.subrange(8, 12)) {
            Some(ProtocolError::UnknownOption)
        } else if be_u32(bytes.subrange(12, 16)) > MAX_OPTION_DATA_LEN {
            Some(ProtocolError::OptionTooLarge)
        } else {
            None
        }
    }

    /// Decodes an option header. It is accepted if and only if no rule is
    /// broken, and then `bytes` is the wire form of the result.
    pub fn nbd_read(bytes: &[u8]) -> (r: Result<OptionHeader, ProtocolError>)
        ensures
            match r {
                Ok(h) => Self::fault(bytes@) is None && bytes@ == h.wire(),
                Err(e) => Self::fault(bytes@) == Some(e),
            },
    {
        if bytes.len() != OPTION_HEADER_LEN {
            return Err(ProtocolError::ShortInput);
        }
        let magic = get_be_u64(bytes, 0);
        if magic != IHAVEOPT {
            return Err(ProtocolError::BadMagic);
        }
        let code = get_be_u32(bytes, 8);
        let option = match NbdOpt::from_u32(code) {
            Some(o) => o,
            None => {
                return Err(ProtocolError::UnknownOption);
            },
        };
        let length = get_be_u32(bytes, 12);
        if length > MAX_OPTION_DATA_LEN {
            return Err(ProtocolError::OptionTooLarge);
        }
        let h = OptionHeader { option, length };
        proof {
            lemma_be_bytes_of_read(bytes@.subrange(0, 8));
            lemma_be_bytes_of_read(bytes@.subrange(8, 12));
            lemma_be_bytes_of_read(bytes@.subrange(12, 16));
            assert(bytes@ =~= bytes@.subrange(0, 8) + bytes@.subrange(8, 12) + bytes@.subrange(
                12,
                16,
            ));
        }
        Ok(h)
    }
}

/// The bytes of a reply to an option: magic, the option answered, the reply
/// code in two's complement, the payload length, the payload.
pub open spec fn opt_reply_wire(option: NbdOpt, reply: NbdOptReply, data: Seq<u8>) -> Seq<u8> {
    be_bytes_u64(NBD_OPT_REPLY_MAGIC) + be_bytes_u32(option.code()) + be_bytes_u32(
        twos_complement_u32(reply.code()),
    ) + be_bytes_u32(data.len() as u32) + data
}

/// The generic reply to an option.
#[derive(Debug)]
pub struct OptReply {
    pub option: NbdOpt,
    pub reply: NbdOptReply,
    pub data: Vec<u8>,
}

impl OptReply {
    /// The bytes of this reply.
    pub open spec fn wire(&self) -> Seq<u8> {
        opt_reply_wire(self.option, self.reply, self.data@)
    }

    /// Appends the reply.
    pub fn nbd_write(&self, out: &mut Vec<u8>)
        requires
            self.data@.len() <= u32::MAX,
        ensures
            final(out)@ == old(out)@ + self.wire(),
    {
        put_be_u64(out, NBD_OPT_REPLY_MAGIC);
        put_be_u32(out, self.option.code());
        put_be_i32(out, self.reply.code());
        put_be_u32(out, self.data.len() as u32);
        put_bytes(out, self.data.as_slice());
        assert(out@ =~= old(out)@ + self.wire());
    }
}

/// The bytes of the answer to an export name: the size of the export, its
/// transmission flags, and the padding unless the client asked to leave it
/// out.
pub open spec fn export_name_reply_wire(size: u64, tx_flags: u16, no_zeros: bool) -> Seq<u8> {
    be_bytes_u64(size) + be_bytes_u16(tx_flags) + if no_zeros {
        Seq::<u8>::empty()
    } else {
        zeros(EXPORT_NAME_PADDING as nat)
    }
}

/// The answer to a successful export-name option.
#[derive(Debug, Clone, Copy)]
pub struct ExportNameOptReply {
    pub size: u64,
    pub tx_flags: NbdTransFlag,
    pub no_zeros: bool,
}

impl ExportNameOptReply {
    /// The bytes of this reply.
    pub open spec fn wire(&self) -> Seq<u8> {
        export_name_reply_wire(self.size, self.tx_flags@, self.no_zeros)
    }

    /// Appends the reply.
    pub fn nbd_write(&self, out: &mut Vec<u8>)
        ensures
            final(out)@ == old(out)@ + self.wire(),
    {
        put_be_u64(out, self.size);
        put_be_u16(out, self.tx_flags.bits());
        if !self.no_zeros {
            put_zeros(out, EXPORT_NAME_PADDING);
        }
        assert(out@ =~= old(out)@ + self.wire());
    }
}

/// The bytes of the header of a request: magic, flags, command, cookie,
/// offset, length.
pub open spec fn request_header_wire(
    flags: u16,
    cmd: NbdCmd,
    cookie: u64,
    offset: u64,
    length: u32,
) -> Seq<u8> {
    be_bytes_u32(NBD_REQUEST_MAGIC) + be_bytes_u16(flags) + be_bytes_u16(cmd.code())
        + be_bytes_u64(cookie) + be_bytes_u64(offset) + be_bytes_u32(length)
}

/// A request of the transmission phase.
#[derive(Debug)]
pub struct Request {
    pub flags: u16,
    pub cmd: NbdCmd,
    pub cookie: u64,
    pub offset: u64,
    pub length: u32,
    pub data: Vec<u8>,
}

impl Request {
    /// The bytes of the header of this request.
    pub open spec fn header_wire(&self) -> Seq<u8> {
        request_header_wire(self.flags, self.cmd, self.cookie, self.offset, self.length)
    }

    /// The whole request: the header, then the payload.
    pub open spec fn wire(&self) -> Seq<u8> {
        self.header_wire() + self.data@
    }

    /// Bytes of payload that follow the header: `length` for a write, none
    /// for every other command.
    pub open spec fn spec_payload_len(&self) -> u32 {
        if self.cmd == NbdCmd::Write {
            self.length
        } else {
            0
        }
    }

    /// The payload is as long as the header announces.
    pub open spec fn wf(&self) -> bool {
        self.data@.len() == self.spec_payload_len()
    }

    /// The first rule that the header `bytes` breaks, if any.
    pub open spec fn fault(bytes: Seq<u8>) -> Option<ProtocolError> {
        if bytes.len() != REQUEST_HEADER_LEN {
            Some(ProtocolError::ShortInput)
        } else if be_u32(bytes.subrange(0, 4)) != NBD_REQUEST_MAGIC {
            Some(ProtocolError::BadMagic)
        } else if forall|c: NbdCmd| c.code() != be_u16(bytes.subrange(6, 8)) {
            Some(ProtocolError::UnknownCommand)
        } else {
            None
        }
    }

    /// Decodes a request header. It is accepted if and only if no rule is
    /// broken; then `bytes` is the header of the result, whose payload is
    /// still empty.
    pub fn nbd_read(bytes: &[u8]) -> (r: Result<Request, ProtocolError>)
        ensures
            match r {
                Ok(req) => Self::fault(bytes@) is None && bytes@ == req.header_wire()
                    && req.data@.len() == 0,
                Err(e) => Self::fault(bytes@) == Some(e),
            },
    {
        if bytes.len() != REQUEST_HEADER_LEN {
            return Err(ProtocolError::ShortInput);
        }
        let magic = get_be_u32(bytes, 0);
        if magic != NBD_REQUEST_MAGIC {
            return Err(ProtocolError::BadMagic);
        }
        let flags = get_be_u16(bytes, 4);
        let code = get_be_u16(bytes, 6);
        let cookie = get_be_u64(bytes, 8);
        let offset = get_be_u64(bytes, 16);
        let length = get_be_u32(bytes, 24);
        let cmd = match NbdCmd::from_u16(code) {
            Some(c) => c,
            None => {
                return Err(ProtocolError::UnknownCommand);
            },
        };
        let req = Request { flags, cmd, cookie, offset, length, data: Vec::new() };
        proof {
            lemma_be_bytes_of_read(bytes@.subrange(0, 4));
            lemma_be_bytes_of_read(bytes@.subrange(4, 6));
            lemma_be_bytes_of_read(bytes@.subrange(6, 8));
            lemma_be_bytes_of_read(bytes@.subrange(8, 16));
            lemma_be_bytes_of_read(bytes@.subrange(16, 24));
            lemma_be_bytes_of_read(bytes@.subrange(24, 28));
            assert(bytes@ =~= bytes@.subrange(0, 4) + bytes@.subrange(4, 6) + bytes@.subrange(6, 8)
                + bytes@.subrange(8, 16) + bytes@.subrange(16, 24) + bytes@.subrange(24, 28));
        }
        Ok(req)
    }

    /// Bytes of payload that follow the header.
    pub fn payload_len(&self) -> (r: u32)
        ensures
            r == self.spec_payload_len(),
    {
        match self.cmd {
            NbdCmd::Write => self.length,
            _ => 0,
        }
    }
}

/// The bytes of a simple reply: magic, error, cookie, data.
pub open spec fn simple_reply_wire(error: u32, cookie: u64, data: Seq<u8>) -> Seq<u8> {
    be_bytes_u32(NBD_SIMPLE_REPLY_MAGIC) + be_bytes_u32(error) + be_bytes_u64(cookie) + data
}

/// The simple reply to a request.
#[derive(Debug)]
pub struct SimpleReply {
    /// Zero for success, else an error number.
    pub error: u32,
    /// The cookie of the request answered.
    pub cookie: u64,
    /// What a successful read returns; empty otherwise.
    pub data: Vec<u8>,
}

impl SimpleReply {
    /// The bytes of this reply.
    pub open spec fn wire(&self) -> Seq<u8> {
        simple_reply_wire(self.error, self.cookie, self.data@)
    }

    /// Appends the reply.
    pub fn nbd_write(&self, out: &mut Vec<u8>)
        ensures
            final(out)@ == old(out)@ + self.wire(),
    {
        put_be_u32(out, NBD_SIMPLE_REPLY_MAGIC);
        put_be_u32(out, self.error);
        put_be_u64(out, self.cookie);
        put_bytes(out, self.data.as_slice());
        assert(out@ =~= old(out)@ + self.wire());
    }
}

/// The bytes of an option header are read back as that header, unless it
/// announces more payload than the server accepts; and no other header has
/// the same bytes.
pub proof fn law_option_header_roundtrip(h: OptionHeader)
    ensures
        OptionHeader::fault(h.wire()) == if h.length > MAX_OPTION_DATA_LEN {
            Some(ProtocolError::OptionTooLarge)
        } else {
            None
        },
        forall|g: OptionHeader| #[trigger] g.wire() == h.wire() ==> g == h,
{
    let bytes = h.wire();
    lemma_be_roundtrip(0, h.option.code(), IHAVEOPT);
    lemma_be_roundtrip(0, h.length, 0);
    assert(bytes.subrange(0, 8) =~= be_bytes_u64(IHAVEOPT));
    assert(bytes.subrange(8, 12) =~= be_bytes_u32(h.option.code()));
    assert(bytes.subrange(12, 16) =~= be_bytes_u32(h.length));
    assert forall|g: OptionHeader| #[trigger] g.wire() == h.wire() implies g == h by {
        lemma_be_roundtrip(0, g.option.code(), IHAVEOPT);
        lemma_be_roundtrip(0, g.length, 0);
        assert(bytes.subrange(8, 12) =~= be_bytes_u32(g.option.code()));
        assert(bytes.subrange(12, 16) =~= be_bytes_u32(g.length));
        lemma_codes_injective();
    }
}

/// The bytes of a request header are read back as that header, and no other
/// header has the same bytes.
pub proof fn law_request_header_roundtrip(
    flags: u16,
    cmd: NbdCmd,
    cookie: u64,
    offset: u64,
    length: u32,
)
    ensures
        Request::fault(request_header_wire(flags, cmd, cookie, offset, length)) is None,
        forall|f: u16, c: NbdCmd, k: u64, o: u64, l: u32| #[trigger]
            request_header_wire(f, c, k, o, l) == request_header_wire(
                flags,
                cmd,
                cookie,
                offset,
                length,
            ) ==> f == flags && c == cmd && k == cookie && o == offset && l == length,
{
    let bytes = request_header_wire(flags, cmd, cookie, offset, length);
    lemma_be_roundtrip(flags, NBD_REQUEST_MAGIC, cookie);
    lemma_be_roundtrip(cmd.code(), length, offset);
    assert(bytes.subrange(0, 4) =~= be_bytes_u32(NBD_REQUEST_MAGIC));
    assert(bytes.subrange(4, 6) =~= be_bytes_u16(flags));
    assert(bytes.subrange(6, 8) =~= be_bytes_u16(cmd.code()));
    assert(bytes.subrange(8, 16) =~= be_bytes_u64(cookie));
    assert(bytes.subrange(16, 24) =~= be_bytes_u64(offset));
    assert(bytes.subrange(24, 28) =~= be_bytes_u32(length));
    assert forall|f: u16, c: NbdCmd, k: u64, o: u64, l: u32| #[trigger]
        request_header_wire(f, c, k, o, l) == bytes implies f == flags && c == cmd && k == cookie
        && o == offset && l == length by {
        lemma_be_roundtrip(f, l, k);
        lemma_be_roundtrip(c.code(), 0, o);
        assert(bytes.subrange(4, 6) =~= be_bytes_u16(f));
        assert(bytes.subrange(6, 8) =~= be_bytes_u16(c.code()));
        assert(bytes.subrange(8, 16) =~= be_bytes_u64(k));
        assert(bytes.subrange(16, 24) =~= be_bytes_u64(o));
        assert(bytes.subrange(24, 28) =~= be_bytes_u32(l));
        lemma_codes_injective();
    }
}

} // verus!
