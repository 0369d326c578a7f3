//! What the server answers to each option of the negotiation.

use crate::buf::{bytes_mut_new, bytes_mut_put_slice, bytes_mut_put_u32_ne, bytes_mut_to_vec};
use crate::endian::{be_bytes_u32, le_bytes_u32, put_bytes};
use crate::proto::{NbdOpt, NbdOptReply};
use crate::server::state::MAX_LISTED_NAME_LEN;
use crate::wire::{zeros, OptReply};
use vstd::prelude::*;
use vstd::utf8::encode_utf8;

verus! {

/// How the negotiation goes on after an option was handled.
#[derive(Debug, Clone, Copy, PartialEq, Eq, Structural)]
pub enum OptionHandleState {
    /// The server reads the next option.
    Continue,
    /// The negotiation is over; transmission begins.
    End,
    /// The session ends once the reply is written.
    Abort,
}

/// The handlers an option can be mapped to.
#[derive(Debug, Clone, Copy, PartialEq, Eq, Structural)]
pub enum OptionHandler {
    /// Answers that the option is not supported.
    Unknown,
    /// Selects an export and ends the negotiation.
    ExportName,
    /// Acknowledges and ends the session.
    Abort,
    /// Lists the exported images.
    List,
}

/// The bytes of a text that is all ASCII.
pub open spec fn ascii(text: Seq<char>) -> Seq<u8> {
    Seq::new(text.len(), |i: int| text[i] as u8)
}

/// The decimal digits of `n` in ASCII, without leading zeros.
pub open spec fn decimal(n: nat) -> Seq<u8>
    decreases n,
{
    if n < 10 {
        seq![(48 + n) as u8]
    } else {
        decimal(n / 10).push((48 + n % 10) as u8)
    }
}

/// The payload that tells a client that option `code` is not supported.
pub open spec fn unknown_option_text(code: u32) -> Seq<u8> {
    ascii("unknown option "@) + decimal(code as nat)
}

/// `payload` is the entry of a list reply for the image called `name`: the
/// length of the name in four bytes, then the name in UTF-8, then four zero
/// bytes. The length stands in the byte order of the machine that runs the
/// server, so either order is an entry.
pub open spec fn is_list_entry(name: Seq<char>, payload: Seq<u8>) -> bool {
    let text = encode_utf8(name);
    let length = text.len() as u32;
    payload == le_bytes_u32(length) + text + zeros(4) || payload == be_bytes_u32(length) + text
        + zeros(4)
}

/// `replies` answer a list option for the images called `names`: one server
/// reply per image, in order, then an acknowledgement without payload.
pub open spec fn is_list_answer(names: Seq<Seq<char>>, opt: NbdOpt, replies: Seq<OptReply>) -> bool {
    &&& replies.len() == names.len() + 1
    &&& forall|i: int|
        0 <= i < names.len() ==> {
            &&& (#[trigger] replies[i]).option == opt
            &&& replies[i].reply == NbdOptReply::Server
            &&& is_list_entry(names[i], replies[i].data@)
        }
    &&& replies.last().option == opt
    &&& replies.last().reply == NbdOptReply::Ack
    &&& replies.last().data@.len() == 0
}

/// Appends the decimal digits of `n`.
fn put_decimal(out: &mut Vec<u8>, n: u32)
    ensures
        final(out)@ == old(out)@ + decimal(n as nat),
    decreases n,
{
    if n >= 10 {
        put_decimal(out, n / 10);
    }
    out.push(48u8 + (n % 10) as u8);
    assert(out@ =~= old(out)@ + decimal(n as nat));
}

/// The reply to an option that no handler is registered for: not
/// supported, with a text that names the option.
pub fn unknown_option_reply(opt: NbdOpt) -> (r: OptReply)
    ensures
        r.option == opt,
        r.reply == NbdOptReply::ErrUnsup,
        r.data@ == unknown_option_text(opt.code()),
        r.data@.len() <= 17,
{
    let mut data: Vec<u8> = Vec::new();
    let text = "unknown option ";
    proof {
        reveal_strlit("unknown option ");
        reveal_with_fuel(decimal, 2);
        assert(decimal(opt.code() as nat).len() <= 2);
        vstd::utf8::is_ascii_chars_encode_utf8(text@);
        assert(encode_utf8(text@) =~= ascii(text@));
    }
    put_bytes(&mut data, text.as_bytes());
    put_decimal(&mut data, opt.code());
    OptReply { option: opt, reply: NbdOptReply::ErrUnsup, data }
}

/// The reply to the abort option: an acknowledgement without payload.
pub fn abort_reply(opt: NbdOpt) -> (r: OptReply)
    ensures
        r.option == opt,
        r.reply == NbdOptReply::Ack,
        r.data@.len() == 0,
{
    OptReply { option: opt, reply: NbdOptReply::Ack, data: Vec::new() }
}

/// The reply to an export name that names no image.
pub fn no_such_export_reply(opt: NbdOpt) -> (r: OptReply)
    ensures
        r.option == opt,
        r.reply == NbdOptReply::ErrUnknown,
        r.data@.len() == 0,
{
    OptReply { option: opt, reply: NbdOptReply::ErrUnknown, data: Vec::new() }
}

/// The entry of a list reply for the image called `name`.
pub fn list_entry(name: &str) -> (r: Vec<u8>)
    requires
        encode_utf8(name@).len() <= MAX_LISTED_NAME_LEN,
    ensures
        is_list_entry(name@, r@),
{
    let text = name.as_bytes();
    let mut data = bytes_mut_new();
    bytes_mut_put_u32_ne(&mut data, text.len() as u32);
    bytes_mut_put_slice(&mut data, text);
    let trailer: [u8; 4] = [0, 0, 0, 0];
    bytes_mut_put_slice(&mut data, trailer.as_slice());
    let r = bytes_mut_to_vec(&data);
    proof {
        assert(trailer@ =~= zeros(4));
    }
    r
}

/// The answer to a list option: one server reply for each of `names`, in
/// order, then an acknowledgement without payload.
pub fn list_replies(names: &Vec<String>, opt: NbdOpt) -> (r: Vec<OptReply>)
    requires
        forall|i: int|
            0 <= i < names@.len() ==> encode_utf8((#[trigger] names@[i])@).len()
                <= MAX_LISTED_NAME_LEN,
    ensures
        is_list_answer(Seq::new(names@.len(), |i: int| names@[i]@), opt, r@),
        forall|i: int| 0 <= i < r@.len() ==> (#[trigger] r@[i]).data@.len() <= u32::MAX,
{
    let mut replies: Vec<OptReply> = Vec::new();
    let mut i: usize = 0;
    while i < names.len()
        invariant
            i <= names.len(),
            replies@.len() == i,
            forall|j: int|
                0 <= j < names@.len() ==> encode_utf8((#[trigger] names@[j])@).len()
                    <= MAX_LISTED_NAME_LEN,
            forall|j: int|
                0 <= j < i ==> {
                    &&& (#[trigger] replies@[j]).option == opt
                    &&& replies@[j].reply == NbdOptReply::Server
                    &&& is_list_entry(names@[j]@, replies@[j].data@)
                },
        decreases names.len() - i,
    {
        let data = list_entry(names[i].as_str());
        replies.push(OptReply { option: opt, reply: NbdOptReply::Server, data });
        i += 1;
    }
    replies.push(abort_reply(opt));
    proof {
        assert forall|j: int| 0 <= j < replies@.len() implies (#[trigger] replies@[j]).data@.len()
            <= u32::MAX by {
            if j < names@.len() {
                assert(is_list_entry(names@[j]@, replies@[j].data@));
            }
        }
    }
    replies
}

} // verus!
