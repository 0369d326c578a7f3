//! Constants, flag sets and code tables of the NBD wire protocol.
//!
//! Every code table is an enum without payload together with a total `code`
//! function and a partial inverse; the inverse is specified through `code`
//! alone, so the two can never drift apart.

use vstd::prelude::*;

verus! {

/// Longest string the protocol tables are dimensioned for.
pub const MAX_STR_LEN: usize = 256;

/// "NBDMAGIC", the first word of the server's banner.
pub const INIT_PASSWD: u64 = 0x4e42444d41474943;

/// Magic of the old-style negotiation.
pub const CLISERV_MAGIC: u64 = 0x00420281861253;

/// "IHAVEOPT", second word of the banner and first word of every option request.
pub const IHAVEOPT: u64 = 0x49484156454F5054;

/// First word of every transmission request.
pub const NBD_REQUEST_MAGIC: u32 = 0x25609513;

/// First word of every option reply.
pub const NBD_OPT_REPLY_MAGIC: u64 = 0x3e889045565a9;

/// First word of every simple reply of the transmission phase.
pub const NBD_SIMPLE_REPLY_MAGIC: u32 = 0x67446698;

/// The port IANA assigned to NBD.
pub const NBD_NEWSTYLE_PORT: u16 = 10809;

/// Server policy: an option whose payload is longer than this is refused.
pub const MAX_OPTION_DATA_LEN: u32 = 4096;

/// Flags the server announces in its banner.
#[derive(Debug, Clone, Copy, PartialEq, Eq, Structural)]
pub struct NbdHandshakeFlag {
    bits: u16,
}

impl NbdHandshakeFlag {
    /// The raw bit pattern.
    pub closed spec fn view(&self) -> u16 {
        self.bits
    }

    pub open spec fn spec_contains(&self, other: NbdHandshakeFlag) -> bool {
        self@ & other@ == other@
    }

    pub fn fixed_newstyle() -> (r: Self)
        ensures
            r@ == 0x0001,
    {
        NbdHandshakeFlag { bits: 0x0001 }
    }

    pub fn no_zeroes() -> (r: Self)
        ensures
            r@ == 0x0002,
    {
        NbdHandshakeFlag { bits: 0x0002 }
    }

    pub fn empty() -> (r: Self)
        ensures
            r@ == 0,
    {
        NbdHandshakeFlag { bits: 0 }
    }

    pub fn bits(&self) -> (r: u16)
        ensures
            r == self@,
    {
        self.bits
    }

    /// Keeps every bit, known or not.
    pub fn from_bits_retain(bits: u16) -> (r: Self)
        ensures
            r@ == bits,
    {
        NbdHandshakeFlag { bits }
    }

    pub fn contains(&self, other: NbdHandshakeFlag) -> (r: bool)
        ensures
            r == self.spec_contains(other),
    {
        self.bits & other.bits == other.bits
    }

    pub fn union(self, other: NbdHandshakeFlag) -> (r: Self)
        ensures
            r@ == self@ | other@,
    {
        NbdHandshakeFlag { bits: self.bits | other.bits }
    }
}

/// Flags the client answers the banner with.
#[derive(Debug, Clone, Copy, PartialEq, Eq, Structural)]
pub struct NbdClientFlag {
    bits: u32,
}

impl NbdClientFlag {
    /// The raw bit pattern.
    pub closed spec fn view(&self) -> u32 {
        self.bits
    }

    pub open spec fn spec_contains(&self, other: NbdClientFlag) -> bool {
        self@ & other@ == other@
    }

    pub fn fixed_newstyle() -> (r: Self)
        ensures
            r@ == 0x0001,
    {
        NbdClientFlag { bits: 0x0001 }
    }

    pub fn no_zeroes() -> (r: Self)
        ensures
            r@ == 0x0002,
    {
        NbdClientFlag { bits: 0x0002 }
    }

    pub fn empty() -> (r: Self)
        ensures
            r@ == 0,
    {
        NbdClientFlag { bits: 0 }
    }

    pub fn bits(&self) -> (r: u32)
        ensures
            r == self@,
    {
        self.bits
    }

    /// Keeps every bit, known or not.
    pub fn from_bits_retain(bits: u32) -> (r: Self)
        ensures
            r@ == bits,
    {
        NbdClientFlag { bits }
    }

    pub fn contains(&self, other: NbdClientFlag) -> (r: bool)
        ensures
            r == self.spec_contains(other),
    {
        self.bits & other.bits == other.bits
    }

    pub fn union(self, other: NbdClientFlag) -> (r: Self)
        ensures
            r@ == self@ | other@,
    {
        NbdClientFlag { bits: self.bits | other.bits }
    }
}

/// Flags that describe an export to the client that selected it.
#[derive(Debug, Clone, Copy, PartialEq, Eq, Structural)]
pub struct NbdTransFlag {
    bits: u16,
}

impl NbdTransFlag {
    /// The raw bit pattern.
    pub closed spec fn view(&self) -> u16 {
        self.bits
    }

    pub open spec fn spec_contains(&self, other: NbdTransFlag) -> bool {
        self@ & other@ == other@
    }

    pub fn has_flags() -> (r: Self)
        ensures
            r@ == 0x0001,
    {
        NbdTransFlag { bits: 0x0001 }
    }

    pub fn read_only() -> (r: Self)
        ensures
            r@ == 0x0002,
    {
        NbdTransFlag { bits: 0x0002 }
    }

    pub fn send_flush() -> (r: Self)
        ensures
            r@ == 0x0004,
    {
        NbdTransFlag { bits: 0x0004 }
    }

    pub fn send_fua() -> (r: Self)
        ensures
            r@ == 0x0008,
    {
        NbdTransFlag { bits: 0x0008 }
    }

    pub fn send_rotational() -> (r: Self)
        ensures
            r@ == 0x0010,
    {
        NbdTransFlag { bits: 0x0010 }
    }

    pub fn send_trim() -> (r: Self)
        ensures
            r@ == 0x0020,
    {
        NbdTransFlag { bits: 0x0020 }
    }

    pub fn send_write_zeroes() -> (r: Self)
        ensures
            r@ == 0x0040,
    {
        NbdTransFlag { bits: 0x0040 }
    }

    pub fn send_df() -> (r: Self)
        ensures
            r@ == 0x0080,
    {
        NbdTransFlag { bits: 0x0080 }
    }

    pub fn can_multi_conn() -> (r: Self)
        ensures
            r@ == 0x0100,
    {
        NbdTransFlag { bits: 0x0100 }
    }

    pub fn send_resize() -> (r: Self)
        ensures
            r@ == 0x0200,
    {
        NbdTransFlag { bits: 0x0200 }
    }

    pub fn send_cache() -> (r: Self)
        ensures
            r@ == 0x0400,
    {
        NbdTransFlag { bits: 0x0400 }
    }

    pub fn send_fast_zero() -> (r: Self)
        ensures
            r@ == 0x0800,
    {
        NbdTransFlag { bits: 0x0800 }
    }

    pub fn block_status_payload() -> (r: Self)
        ensures
            r@ == 0x1000,
    {
        NbdTransFlag { bits: 0x1000 }
    }

    pub fn empty() -> (r: Self)
        ensures
            r@ == 0,
    {
        NbdTransFlag { bits: 0 }
    }

    pub fn bits(&self) -> (r: u16)
        ensures
            r == self@,
    {
        self.bits
    }

    /// Keeps every bit, known or not.
    pub fn from_bits_retain(bits: u16) -> (r: Self)
        ensures
            r@ == bits,
    {
        NbdTransFlag { bits }
    }

    pub fn contains(&self, other: NbdTransFlag) -> (r: bool)
        ensures
            r == self.spec_contains(other),
    {
        self.bits & other.bits == other.bits
    }

    pub fn union(self, other: NbdTransFlag) -> (r: Self)
        ensures
            r@ == self@ | other@,
    {
        NbdTransFlag { bits: self.bits | other.bits }
    }

    /// What a fresh connection advertises for the export it selects:
    /// HAS_FLAGS, SEND_FLUSH, SEND_TRIM and SEND_WRITE_ZEROES.
    pub fn default_advertised() -> (r: Self)
        ensures
            r@ == 0x0065,
    {
        let r = Self::has_flags().union(Self::send_flush()).union(Self::send_trim()).union(
            Self::send_write_zeroes(),
        );
        assert(((0x0001u16 | 0x0004u16) | 0x0020u16) | 0x0040u16 == 0x0065u16) by (bit_vector);
        r
    }
}

/// The options a client may send during negotiation.
#[derive(Debug, Clone, Copy, PartialEq, Eq, Structural)]
pub enum NbdOpt {
    ExportName,
    Abort,
    List,
    PeekExport,
    Starttls,
    Info,
    Go,
    StructuredReply,
    ListMetaContext,
    SetMetaContext,
    ExtendedHeaders,
}

impl NbdOpt {
    pub open spec fn spec_code(self) -> u32 {
        match self {
            NbdOpt::ExportName => 1,
            NbdOpt::Abort => 2,
            NbdOpt::List => 3,
            NbdOpt::PeekExport => 4,
            NbdOpt::Starttls => 5,
            NbdOpt::Info => 6,
            NbdOpt::Go => 7,
            NbdOpt::StructuredReply => 8,
            NbdOpt::ListMetaContext => 9,
            NbdOpt::SetMetaContext => 10,
            NbdOpt::ExtendedHeaders => 11,
        }
    }

    /// The number that stands for this option on the wire.
    #[verifier::when_used_as_spec(spec_code)]
    pub fn code(self) -> (r: u32)
        ensures
            r == self.spec_code(),
    {
        match self {
            NbdOpt::ExportName => 1,
            NbdOpt::Abort => 2,
            NbdOpt::List => 3,
            NbdOpt::PeekExport => 4,
            NbdOpt::Starttls => 5,
            NbdOpt::Info => 6,
            NbdOpt::Go => 7,
            NbdOpt::StructuredReply => 8,
            NbdOpt::ListMetaContext => 9,
            NbdOpt::SetMetaContext => 10,
            NbdOpt::ExtendedHeaders => 11,
        }
    }

    /// The option a number stands for, if any.
    pub fn from_u32(v: u32) -> (r: Option<NbdOpt>)
        ensures
            r matches Some(o) ==> o.code() == v,
            r is None ==> forall|o: NbdOpt| o.code() != v,
    {
        match v {
            1 => Some(NbdOpt::ExportName),
            2 => Some(NbdOpt::Abort),
            3 => Some(NbdOpt::List),
            4 => Some(NbdOpt::PeekExport),
            5 => Some(NbdOpt::Starttls),
            6 => Some(NbdOpt::Info),
            7 => Some(NbdOpt::Go),
            8 => Some(NbdOpt::StructuredReply),
            9 => Some(NbdOpt::ListMetaContext),
            10 => Some(NbdOpt::SetMetaContext),
            11 => Some(NbdOpt::ExtendedHeaders),
            _ => None,
        }
    }
}

/// The kinds of reply to an option; the negative ones report an error.
#[derive(Debug, Clone, Copy, PartialEq, Eq, Structural)]
pub enum NbdOptReply {
    Ack,
    Server,
    Info,
    MetaContext,
    ErrUnsup,
    ErrPolicy,
    ErrInvalid,
    ErrPlatform,
    ErrTlsReqd,
    ErrUnknown,
    ErrShutdown,
    ErrBlockSizeReqd,
    ErrTooBig,
    ErrExtHeaderReqd,
}

impl NbdOptReply {
    pub open spec fn spec_code(self) -> i32 {
        match self {
            NbdOptReply::Ack => 1,
            NbdOptReply::Server => 2,
            NbdOptReply::Info => 3,
            NbdOptReply::MetaContext => 4,
            NbdOptReply::ErrUnsup => (-1) as i32,
            NbdOptReply::ErrPolicy => (-2) as i32,
            NbdOptReply::ErrInvalid => (-3) as i32,
            NbdOptReply::ErrPlatform => (-4) as i32,
            NbdOptReply::ErrTlsReqd => (-5) as i32,
            NbdOptReply::ErrUnknown => (-6) as i32,
            NbdOptReply::ErrShutdown => (-7) as i32,
            NbdOptReply::ErrBlockSizeReqd => (-8) as i32,
            NbdOptReply::ErrTooBig => (-9) as i32,
            NbdOptReply::ErrExtHeaderReqd => (-10) as i32,
        }
    }

    /// The signed number that stands for this reply on the wire.
    #[verifier::when_used_as_spec(spec_code)]
    pub fn code(self) -> (r: i32)
        ensures
            r == self.spec_code(),
    {
        match self {
            NbdOptReply::Ack => 1,
            NbdOptReply::Server => 2,
            NbdOptReply::Info => 3,
            NbdOptReply::MetaContext => 4,
            NbdOptReply::ErrUnsup => -1,
            NbdOptReply::ErrPolicy => -2,
            NbdOptReply::ErrInvalid => -3,
            NbdOptReply::ErrPlatform => -4,
            NbdOptReply::ErrTlsReqd => -5,
            NbdOptReply::ErrUnknown => -6,
            NbdOptReply::ErrShutdown => -7,
            NbdOptReply::ErrBlockSizeReqd => -8,
            NbdOptReply::ErrTooBig => -9,
            NbdOptReply::ErrExtHeaderReqd => -10,
        }
    }

    /// Whether this reply reports an error.
    pub fn is_error(self) -> (r: bool)
        ensures
            r == (self.code() < 0),
    {
        self.code() < 0
    }

    /// The reply a number stands for, if any.
    pub fn from_i32(v: i32) -> (r: Option<NbdOptReply>)
        ensures
            r matches Some(o) ==> o.code() == v,
            r is None ==> forall|o: NbdOptReply| o.code() != v,
    {
        match v {
            1 => Some(NbdOptReply::Ack),
            2 => Some(NbdOptReply::Server),
            3 => Some(NbdOptReply::Info),
            4 => Some(NbdOptReply::MetaContext),
            -1 => Some(NbdOptReply::ErrUnsup),
            -2 => Some(NbdOptReply::ErrPolicy),
            -3 => Some(NbdOptReply::ErrInvalid),
            -4 => Some(NbdOptReply::ErrPlatform),
            -5 => Some(NbdOptReply::ErrTlsReqd),
            -6 => Some(NbdOptReply::ErrUnknown),
            -7 => Some(NbdOptReply::ErrShutdown),
            -8 => Some(NbdOptReply::ErrBlockSizeReqd),
            -9 => Some(NbdOptReply::ErrTooBig),
            -10 => Some(NbdOptReply::ErrExtHeaderReqd),
            _ => None,
        }
    }
}

/// The kinds of information an export can be asked for.
#[derive(Debug, Clone, Copy, PartialEq, Eq, Structural)]
pub enum NbdInfo {
    Name,
    Description,
    BlockSize,
}

impl NbdInfo {
    pub open spec fn spec_code(self) -> u16 {
        match self {
            NbdInfo::Name => 1,
            NbdInfo::Description => 2,
            NbdInfo::BlockSize => 3,
        }
    }

    /// The number that stands for this kind on the wire.
    #[verifier::when_used_as_spec(spec_code)]
    pub fn code(self) -> (r: u16)
        ensures
            r == self.spec_code(),
    {
        match self {
            NbdInfo::Name => 1,
            NbdInfo::Description => 2,
            NbdInfo::BlockSize => 3,
        }
    }

    /// The kind a number stands for, if any.
    pub fn from_u16(v: u16) -> (r: Option<NbdInfo>)
        ensures
            r matches Some(o) ==> o.code() == v,
            r is None ==> forall|o: NbdInfo| o.code() != v,
    {
        match v {
            1 => Some(NbdInfo::Name),
            2 => Some(NbdInfo::Description),
            3 => Some(NbdInfo::BlockSize),
            _ => None,
        }
    }
}

/// The commands of the transmission phase.
#[derive(Debug, Clone, Copy, PartialEq, Eq, Structural)]
pub enum NbdCmd {
    Read,
    Write,
    Disc,
    Flush,
    Trim,
    Cache,
    WriteZeroes,
    BlockStatus,
    Resize,
}

impl NbdCmd {
    pub open spec fn spec_code(self) -> u16 {
        match self {
            NbdCmd::Read => 0,
            NbdCmd::Write => 1,
            NbdCmd::Disc => 2,
            NbdCmd::Flush => 3,
            NbdCmd::Trim => 4,
            NbdCmd::Cache => 5,
            NbdCmd::WriteZeroes => 6,
            NbdCmd::BlockStatus => 7,
            NbdCmd::Resize => 8,
        }
    }

    /// The number that stands for this command on the wire.
    #[verifier::when_used_as_spec(spec_code)]
    pub fn code(self) -> (r: u16)
        ensures
            r == self.spec_code(),
    {
        match self {
            NbdCmd::Read => 0,
            NbdCmd::Write => 1,
            NbdCmd::Disc => 2,
            NbdCmd::Flush => 3,
            NbdCmd::Trim => 4,
            NbdCmd::Cache => 5,
            NbdCmd::WriteZeroes => 6,
            NbdCmd::BlockStatus => 7,
            NbdCmd::Resize => 8,
        }
    }

    /// The command a number stands for, if any.
    pub fn from_u16(v: u16) -> (r: Option<NbdCmd>)
        ensures
            r matches Some(o) ==> o.code() == v,
            r is None ==> forall|o: NbdCmd| o.code() != v,
    {
        match v {
            0 => Some(NbdCmd::Read),
            1 => Some(NbdCmd::Write),
            2 => Some(NbdCmd::Disc),
            3 => Some(NbdCmd::Flush),
            4 => Some(NbdCmd::Trim),
            5 => Some(NbdCmd::Cache),
            6 => Some(NbdCmd::WriteZeroes),
            7 => Some(NbdCmd::BlockStatus),
            8 => Some(NbdCmd::Resize),
            _ => None,
        }
    }
}

/// The error numbers a simple reply can carry.
#[derive(Debug, Clone, Copy, PartialEq, Eq, Structural)]
pub enum NbdErrno {
    /// Operation not permitted.
    Perm,
    /// Input or output error.
    Io,
    /// Invalid argument.
    Inval,
    /// No space left on the device.
    NoSpc,
    /// Operation not supported.
    NotSup,
}

impl NbdErrno {
    pub open spec fn spec_code(self) -> u32 {
        match self {
            NbdErrno::Perm => 1,
            NbdErrno::Io => 5,
            NbdErrno::Inval => 22,
            NbdErrno::NoSpc => 28,
            NbdErrno::NotSup => 95,
        }
    }

    /// The number that stands for this error on the wire; never zero, which
    /// stands for success.
    #[verifier::when_used_as_spec(spec_code)]
    pub fn code(self) -> (r: u32)
        ensures
            r == self.spec_code(),
            r != 0,
    {
        match self {
            NbdErrno::Perm => 1,
            NbdErrno::Io => 5,
            NbdErrno::Inval => 22,
            NbdErrno::NoSpc => 28,
            NbdErrno::NotSup => 95,
        }
    }
}

/// Every code table is injective: two members with the same number are the
/// same member. With the contracts of the `from_*` functions this makes each
/// of them the inverse of `code`.
pub proof fn lemma_codes_injective()
    ensures
        forall|a: NbdOpt, b: NbdOpt| a.code() == b.code() ==> a == b,
        forall|a: NbdOptReply, b: NbdOptReply| a.code() == b.code() ==> a == b,
        forall|a: NbdInfo, b: NbdInfo| a.code() == b.code() ==> a == b,
        forall|a: NbdCmd, b: NbdCmd| a.code() == b.code() ==> a == b,
        forall|a: NbdErrno, b: NbdErrno| a.code() == b.code() ==> a == b,
{
}

} // verus!
