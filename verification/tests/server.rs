use nbd_server::driver::{Driver, DriverImpl, Image, ImageDesc, ImageImpl, ImageInfo};
use nbd_server::error::ErrorKind;
use nbd_server::proto::{NbdOpt, NbdOptReply};
use nbd_server::server::config::ServerConfig;
use nbd_server::server::options::{
    abort_reply, list_entry, list_replies, no_such_export_reply, unknown_option_reply,
    OptionHandler,
};
use nbd_server::server::shard::{
    CloseReason, ImageOp, ServerShard, ShardAction, ShardEvent, ShardNext, ShardPhase,
};
use nbd_server::server::state::ServerState;
use nbd_server::server::{Server, ServerBuilder};
use nbd_server::wire::{OptionHeader, ProtocolError};

#[derive(Debug)]
struct MemDriver {
    name: String,
}

impl DriverImpl for MemDriver {
    fn name(&self) -> &str {
        &self.name
    }

    fn dup(&self) -> Self {
        MemDriver { name: self.name.clone() }
    }
}

#[derive(Debug)]
struct MemImage {
    name: String,
    size: u64,
    readonly: bool,
}

impl ImageImpl for MemImage {
    fn name(&self) -> &str {
        &self.name
    }

    fn info(&self) -> ImageInfo {
        ImageInfo { size: self.size, readonly: self.readonly }
    }

    fn dup(&self) -> Self {
        MemImage { name: self.name.clone(), size: self.size, readonly: self.readonly }
    }
}

type Shard = ServerShard<MemImage>;
type Action = ShardAction<MemDriver>;

const IHAVEOPT: u64 = 0x49484156454F5054;
const REPLY_MAGIC: [u8; 8] = [0x00, 0x03, 0xe8, 0x89, 0x04, 0x55, 0x65, 0xa9];
const SIMPLE_MAGIC: [u8; 4] = [0x67, 0x44, 0x66, 0x98];

fn driver(name: &str) -> Driver<MemDriver> {
    Driver::from_impl(MemDriver { name: name.to_string() })
}

fn desc(name: &str, driver_name: &str) -> ImageDesc {
    ImageDesc { driver_name: driver_name.to_string(), name: name.to_string() }
}

fn image(name: &str, size: u64) -> Image<MemImage> {
    Image::from_impl(MemImage { name: name.to_string(), size, readonly: false })
}

fn state_with(images: &[(&str, &str)]) -> ServerState<MemDriver> {
    let mut state = ServerState::new();
    for (name, driver_name) in images {
        state.add_image(driver(driver_name), desc(name, driver_name)).unwrap();
    }
    state
}

fn config() -> ServerConfig {
    ServerConfig::new(10809, 0x0001)
}

fn option_header(option: u32, length: u32) -> Vec<u8> {
    let mut bytes = Vec::new();
    bytes.extend_from_slice(&IHAVEOPT.to_be_bytes());
    bytes.extend_from_slice(&option.to_be_bytes());
    bytes.extend_from_slice(&length.to_be_bytes());
    bytes
}

fn request_header(cmd: u16, cookie: u64, offset: u64, length: u32) -> Vec<u8> {
    let mut bytes = Vec::new();
    bytes.extend_from_slice(&0x25609513u32.to_be_bytes());
    bytes.extend_from_slice(&0u16.to_be_bytes());
    bytes.extend_from_slice(&cmd.to_be_bytes());
    bytes.extend_from_slice(&cookie.to_be_bytes());
    bytes.extend_from_slice(&offset.to_be_bytes());
    bytes.extend_from_slice(&length.to_be_bytes());
    bytes
}

fn opt_reply(option: u32, reply: i32, data: &[u8]) -> Vec<u8> {
    let mut bytes = REPLY_MAGIC.to_vec();
    bytes.extend_from_slice(&option.to_be_bytes());
    bytes.extend_from_slice(&reply.to_be_bytes());
    bytes.extend_from_slice(&(data.len() as u32).to_be_bytes());
    bytes.extend_from_slice(data);
    bytes
}

fn simple_reply(error: u32, cookie: u64, data: &[u8]) -> Vec<u8> {
    let mut bytes = SIMPLE_MAGIC.to_vec();
    bytes.extend_from_slice(&error.to_be_bytes());
    bytes.extend_from_slice(&cookie.to_be_bytes());
    bytes.extend_from_slice(data);
    bytes
}

fn list_payload(name: &str) -> Vec<u8> {
    let mut bytes = (name.len() as u32).to_ne_bytes().to_vec();
    bytes.extend_from_slice(name.as_bytes());
    bytes.extend_from_slice(&[0, 0, 0, 0]);
    bytes
}

/// Hands a header to the connection piece by piece, as the connection asks
/// for it, and gives back the first answer that does not ask for the next
/// piece.
fn feed(
    shard: &mut Shard,
    config: &ServerConfig,
    state: &ServerState<MemDriver>,
    bytes: &[u8],
    pieces: &[usize],
) -> Action {
    let mut at = 0;
    for (k, n) in pieces.iter().enumerate() {
        let end = (at + n).min(bytes.len());
        let action = shard.step(config, state, ShardEvent::Bytes(bytes[at..end].to_vec()));
        at = end;
        let asks_on = k + 1 < pieces.len()
            && action.send.is_empty()
            && matches!(action.next, ShardNext::Read(m) if m == pieces[k + 1]);
        if !asks_on {
            return action;
        }
    }
    unreachable!()
}

/// Hands over the header of an option: magic, code, length.
fn option_head(
    shard: &mut Shard,
    config: &ServerConfig,
    state: &ServerState<MemDriver>,
    bytes: &[u8],
) -> Action {
    feed(shard, config, state, bytes, &[8, 4, 4])
}

/// Hands over the header of a request: magic, then the other fields.
fn request_head(
    shard: &mut Shard,
    config: &ServerConfig,
    state: &ServerState<MemDriver>,
    bytes: &[u8],
) -> Action {
    feed(shard, config, state, bytes, &[4, 24])
}

fn reads(action: &Action, n: usize) -> bool {
    matches!(action.next, ShardNext::Read(m) if m == n)
}

fn closed_for(action: &Action, reason: CloseReason) -> bool {
    matches!(action.next, ShardNext::Close(r) if r == reason)
}

/// A connection that has passed the handshake with the given client flags.
fn negotiating(config: &ServerConfig, state: &ServerState<MemDriver>, flags: u32) -> Shard {
    let mut shard = Shard::new();
    let hello = shard.step(config, state, ShardEvent::Connected);
    assert!(reads(&hello, 4));
    let answer = shard.step(config, state, ShardEvent::Bytes(flags.to_be_bytes().to_vec()));
    assert!(answer.send.is_empty());
    assert!(reads(&answer, 8));
    assert_eq!(shard.phase(), ShardPhase::OptionMagic);
    shard
}

/// Sends one option with its payload and hands back the answer.
fn option(
    shard: &mut Shard,
    config: &ServerConfig,
    state: &ServerState<MemDriver>,
    code: u32,
    data: &[u8],
) -> Action {
    let header = option_head(shard, config, state, &option_header(code, data.len() as u32));
    assert!(header.send.is_empty());
    assert!(reads(&header, data.len()));
    shard.step(config, state, ShardEvent::Bytes(data.to_vec()))
}

/// A connection in the transmission phase on a one-mebibyte image.
fn transmitting(config: &ServerConfig, state: &ServerState<MemDriver>) -> Shard {
    let mut shard = negotiating(config, state, 1);
    let lookup = option(&mut shard, config, state, 1, b"img/fs");
    assert!(matches!(lookup.next, ShardNext::OpenImage(_, _)));
    let opened = shard.step(config, state, ShardEvent::ImageOpened(image("img", 1 << 20)));
    assert!(reads(&opened, 4));
    assert_eq!(shard.phase(), ShardPhase::RequestMagic);
    shard
}

#[test]
fn the_handshake_sends_the_banner_and_waits_for_an_option() {
    let config = config();
    let state = state_with(&[]);
    let mut shard = Shard::new();
    assert_eq!(shard.phase(), ShardPhase::Start);
    let hello = shard.step(&config, &state, ShardEvent::Connected);
    assert_eq!(
        hello.send,
        [
            0x4e, 0x42, 0x44, 0x4d, 0x41, 0x47, 0x49, 0x43, 0x49, 0x48, 0x41, 0x56, 0x45, 0x4f,
            0x50, 0x54, 0x00, 0x01
        ]
    );
    assert!(reads(&hello, 4));
    assert_eq!(shard.phase(), ShardPhase::ClientFlags);
    let answer = shard.step(&config, &state, ShardEvent::Bytes(vec![0x00, 0x00, 0x00, 0x01]));
    assert!(answer.send.is_empty());
    assert!(reads(&answer, 8));
    assert_eq!(shard.phase(), ShardPhase::OptionMagic);
    assert_eq!(shard.client_flags().bits(), 1);
    let wrong = shard.step(&config, &state, ShardEvent::Bytes(vec![0; 8]));
    assert!(closed_for(&wrong, CloseReason::Protocol(ProtocolError::BadMagic)));
}

#[test]
fn the_banner_carries_the_configured_flags() {
    let config = ServerConfig::new(10809, 0x0003);
    let state = state_with(&[]);
    let mut shard = Shard::new();
    let hello = shard.step(&config, &state, ShardEvent::Connected);
    assert_eq!(&hello.send[16..], [0x00, 0x03]);
}

#[test]
fn a_client_without_fixed_newstyle_is_turned_away() {
    let config = config();
    let state = state_with(&[("img", "fs")]);
    for flags in [0u32, 2, 0xffff_fffe, 0x8000_0000] {
        let mut shard = Shard::new();
        shard.step(&config, &state, ShardEvent::Connected);
        let answer = shard.step(&config, &state, ShardEvent::Bytes(flags.to_be_bytes().to_vec()));
        assert!(answer.send.is_empty());
        assert!(closed_for(&answer, CloseReason::Protocol(ProtocolError::NotFixedNewstyle)));
        assert_eq!(shard.phase(), ShardPhase::Closed);
        let later = option_head(&mut shard, &config, &state, &option_header(3, 0));
        assert!(later.send.is_empty());
        assert!(closed_for(&later, CloseReason::UnexpectedEvent));
    }
}

#[test]
fn unknown_client_flags_are_kept() {
    let config = config();
    let state = state_with(&[]);
    let shard = negotiating(&config, &state, 0x8000_0003);
    assert_eq!(shard.client_flags().bits(), 0x8000_0003);
}

#[test]
fn short_client_flags_end_the_connection() {
    let config = config();
    let state = state_with(&[]);
    let mut shard = Shard::new();
    shard.step(&config, &state, ShardEvent::Connected);
    let answer = shard.step(&config, &state, ShardEvent::Bytes(vec![0, 0, 1]));
    assert!(closed_for(&answer, CloseReason::Protocol(ProtocolError::ShortInput)));
}

#[test]
fn abort_is_acknowledged_and_ends_the_session() {
    let config = config();
    let state = state_with(&[("img", "fs")]);
    let mut shard = negotiating(&config, &state, 1);
    let answer = option(&mut shard, &config, &state, 2, b"");
    assert_eq!(
        answer.send,
        [0x00, 0x03, 0xe8, 0x89, 0x04, 0x55, 0x65, 0xa9, 0, 0, 0, 2, 0, 0, 0, 1, 0, 0, 0, 0]
    );
    assert!(closed_for(&answer, CloseReason::Aborted));
    assert_eq!(shard.phase(), ShardPhase::Closed);
}

#[test]
fn an_unknown_option_is_answered_and_the_session_continues() {
    let config = config();
    let state = state_with(&[]);
    let mut shard = negotiating(&config, &state, 1);
    let answer = option(&mut shard, &config, &state, 4, b"");
    assert_eq!(answer.send, opt_reply(4, -1, b"unknown option 4"));
    assert!(reads(&answer, 8));
    assert_eq!(shard.phase(), ShardPhase::OptionMagic);
    let again = option(&mut shard, &config, &state, 2, b"");
    assert!(closed_for(&again, CloseReason::Aborted));
}

#[test]
fn every_option_without_a_handler_is_unsupported() {
    let config = config();
    let state = state_with(&[("img", "fs")]);
    let mut shard = negotiating(&config, &state, 1);
    for code in [4u32, 5, 6, 7, 8, 9, 10, 11] {
        let answer = option(&mut shard, &config, &state, code, b"payload");
        let text = format!("unknown option {code}");
        assert_eq!(answer.send, opt_reply(code, -1, text.as_bytes()));
        assert!(reads(&answer, 8));
        assert_eq!(shard.phase(), ShardPhase::OptionMagic);
    }
}

#[test]
fn an_option_that_lost_its_handler_is_unsupported() {
    let mut config = config();
    config.insert_handler(NbdOpt::List, OptionHandler::Unknown);
    let state = state_with(&[("img", "fs")]);
    let mut shard = negotiating(&config, &state, 1);
    let answer = option(&mut shard, &config, &state, 3, b"");
    assert_eq!(answer.send, opt_reply(3, -1, b"unknown option 3"));
    assert!(reads(&answer, 8));
}

#[test]
fn an_option_can_be_given_another_handler() {
    let mut config = config();
    config.insert_handler(NbdOpt::Go, OptionHandler::Abort);
    assert_eq!(config.handler(NbdOpt::Go), OptionHandler::Abort);
    let state = state_with(&[]);
    let mut shard = negotiating(&config, &state, 1);
    let answer = option(&mut shard, &config, &state, 7, b"");
    assert_eq!(answer.send, opt_reply(7, 1, b""));
    assert!(closed_for(&answer, CloseReason::Aborted));
}

#[test]
fn an_oversized_option_ends_the_connection_at_its_header() {
    let config = config();
    let state = state_with(&[("img", "fs")]);
    for code in [1u32, 2, 3, 4] {
        let mut shard = negotiating(&config, &state, 1);
        let answer = option_head(&mut shard, &config, &state, &option_header(code, 4097));
        assert!(answer.send.is_empty());
        assert!(closed_for(&answer, CloseReason::Protocol(ProtocolError::OptionTooLarge)));
        assert_eq!(shard.phase(), ShardPhase::Closed);
    }
}

#[test]
fn the_largest_option_is_accepted() {
    let config = config();
    let state = state_with(&[]);
    let mut shard = negotiating(&config, &state, 1);
    let answer = option_head(&mut shard, &config, &state, &option_header(4, 4096));
    assert!(reads(&answer, 4096));
    assert_eq!(
        shard.phase(),
        ShardPhase::OptionData(OptionHeader { option: NbdOpt::PeekExport, length: 4096 })
    );
}

#[test]
fn a_bad_option_header_ends_the_connection() {
    let config = config();
    let state = state_with(&[]);
    let mut wrong_magic = option_header(3, 0);
    wrong_magic[0] = 0;
    let cases = [
        (wrong_magic, ProtocolError::BadMagic),
        (option_header(0, 0), ProtocolError::UnknownOption),
        (option_header(12, 0), ProtocolError::UnknownOption),
        (option_header(3, 0)[..15].to_vec(), ProtocolError::ShortInput),
    ];
    for (bytes, fault) in cases {
        let mut shard = negotiating(&config, &state, 1);
        let answer = option_head(&mut shard, &config, &state, &bytes);
        assert!(answer.send.is_empty());
        assert!(closed_for(&answer, CloseReason::Protocol(fault)));
    }
}

#[test]
fn a_short_option_payload_ends_the_connection() {
    let config = config();
    let state = state_with(&[]);
    let mut shard = negotiating(&config, &state, 1);
    option_head(&mut shard, &config, &state, &option_header(3, 4));
    let answer = shard.step(&config, &state, ShardEvent::Bytes(vec![0; 3]));
    assert!(closed_for(&answer, CloseReason::Protocol(ProtocolError::ShortInput)));
}

#[test]
fn list_sends_one_reply_for_the_image_and_an_acknowledgement() {
    let config = config();
    let state = state_with(&[("img", "fs")]);
    let mut shard = negotiating(&config, &state, 1);
    let answer = option(&mut shard, &config, &state, 3, b"");
    let mut expected = opt_reply(3, 2, &list_payload("img/fs"));
    expected.extend_from_slice(&opt_reply(3, 1, b""));
    assert_eq!(answer.send, expected);
    let entry = &answer.send[20..34];
    assert_eq!(&entry[..4], 6u32.to_ne_bytes());
    assert_eq!(&entry[4..10], [0x69, 0x6d, 0x67, 0x2f, 0x66, 0x73]);
    assert_eq!(&entry[10..], [0x00, 0x00, 0x00, 0x00]);
    assert!(reads(&answer, 8));
    assert_eq!(shard.phase(), ShardPhase::OptionMagic);
}

#[test]
fn list_answers_every_image() {
    let config = config();
    let images = [("a", "fs"), ("b", "mem"), ("c", "fs"), ("d", "mem")];
    for count in 0..=images.len() {
        let state = state_with(&images[..count]);
        let mut shard = negotiating(&config, &state, 1);
        let answer = option(&mut shard, &config, &state, 3, b"ignored");
        let mut rest = &answer.send[..];
        let mut server_replies = 0;
        loop {
            assert_eq!(&rest[..8], REPLY_MAGIC);
            assert_eq!(&rest[8..12], [0, 0, 0, 3]);
            let kind = i32::from_be_bytes([rest[12], rest[13], rest[14], rest[15]]);
            let len = u32::from_be_bytes([rest[16], rest[17], rest[18], rest[19]]) as usize;
            rest = &rest[20 + len..];
            if kind == 2 {
                server_replies += 1;
            } else {
                assert_eq!(kind, 1);
                assert_eq!(len, 0);
                break;
            }
        }
        assert!(rest.is_empty());
        assert_eq!(server_replies, count);
        assert_eq!(server_replies, state.list_images().len());
        assert!(reads(&answer, 8));
    }
}

#[test]
fn an_export_name_opens_the_image_and_begins_transmission() {
    let config = config();
    let state = state_with(&[("img", "fs")]);
    let mut shard = negotiating(&config, &state, 1);
    let lookup = option(&mut shard, &config, &state, 1, b"img/fs");
    assert!(lookup.send.is_empty());
    match &lookup.next {
        ShardNext::OpenImage(driver, desc) => {
            assert_eq!(driver.name(), "fs");
            assert_eq!(desc.name, "img");
            assert_eq!(desc.driver_name, "fs");
        }
        _ => panic!("the image must be opened"),
    }
    assert_eq!(shard.phase(), ShardPhase::OpeningImage);
    assert!(shard.image().is_none());
    let opened = shard.step(&config, &state, ShardEvent::ImageOpened(image("img", 0x0010_0000)));
    let mut expected = vec![0x00, 0x00, 0x00, 0x00, 0x00, 0x10, 0x00, 0x00, 0x00, 0x65];
    expected.extend_from_slice(&[0; 124]);
    assert_eq!(opened.send, expected);
    assert!(reads(&opened, 4));
    assert_eq!(shard.phase(), ShardPhase::RequestMagic);
    assert_eq!(shard.image().unwrap().name(), "img");
    assert_eq!(shard.image().unwrap().info().size, 0x0010_0000);
    assert_eq!(shard.tx_flags().bits(), 0x0065);
    let mut wrong = request_header(0, 1, 0, 0);
    wrong[3] = 0x14;
    let refused = request_head(&mut shard, &config, &state, &wrong);
    assert_eq!(shard.phase(), ShardPhase::Closed);
    assert!(closed_for(&refused, CloseReason::Protocol(ProtocolError::BadMagic)));
}

#[test]
fn the_padding_is_left_out_for_a_client_that_asked() {
    let config = config();
    let state = state_with(&[("img", "fs")]);
    let mut shard = negotiating(&config, &state, 3);
    option(&mut shard, &config, &state, 1, b"img/fs");
    let opened = shard.step(&config, &state, ShardEvent::ImageOpened(image("img", 513)));
    assert_eq!(opened.send, [0, 0, 0, 0, 0, 0, 0x02, 0x01, 0x00, 0x65]);
    assert!(reads(&opened, 4));
}

#[test]
fn an_export_name_of_no_image_is_answered_with_an_error() {
    let config = config();
    let state = state_with(&[("img", "fs")]);
    for name in ["other/fs", "img/mem", "img", "fs/img", "img/fs/", ""] {
        let mut shard = negotiating(&config, &state, 1);
        let answer = option(&mut shard, &config, &state, 1, name.as_bytes());
        assert_eq!(answer.send, opt_reply(1, -6, b""), "{name:?}");
        assert!(closed_for(&answer, CloseReason::Aborted));
        assert_eq!(shard.phase(), ShardPhase::Closed);
    }
}

#[test]
fn an_export_name_that_is_not_utf8_ends_the_connection() {
    let config = config();
    let state = state_with(&[("img", "fs")]);
    let mut shard = negotiating(&config, &state, 1);
    let answer = option(&mut shard, &config, &state, 1, &[0x69, 0x6d, 0x67, 0xff, 0x66, 0x73]);
    assert!(answer.send.is_empty());
    assert!(closed_for(&answer, CloseReason::Protocol(ProtocolError::BadExportName)));
}

#[test]
fn an_image_that_cannot_be_opened_ends_the_connection() {
    let config = config();
    let state = state_with(&[("img", "fs")]);
    let mut shard = negotiating(&config, &state, 1);
    option(&mut shard, &config, &state, 1, b"img/fs");
    let failed = shard.step(&config, &state, ShardEvent::ImageOpenFailed(ErrorKind::NotFound));
    assert!(failed.send.is_empty());
    assert!(closed_for(&failed, CloseReason::OpenFailed(ErrorKind::NotFound)));
    assert_eq!(shard.phase(), ShardPhase::Closed);
}

#[test]
fn the_first_image_of_a_name_is_selected() {
    let config = config();
    let mut state = ServerState::new();
    state.add_image(driver("mem"), desc("x", "mem")).unwrap();
    state.add_image(driver("alias"), desc("img", "fs")).unwrap();
    state.add_image(driver("fs"), desc("img", "fs")).unwrap();
    let mut shard = negotiating(&config, &state, 1);
    let lookup = option(&mut shard, &config, &state, 1, b"img/fs");
    match &lookup.next {
        ShardNext::OpenImage(driver, desc) => {
            assert_eq!(driver.name(), "alias");
            assert_eq!(desc.full_name(), "img/fs");
        }
        _ => panic!("the image must be opened"),
    }
}

#[test]
fn disconnect_ends_transmission_without_a_reply() {
    let config = config();
    let state = state_with(&[("img", "fs")]);
    let mut shard = transmitting(&config, &state);
    let mut bytes = vec![0x25, 0x60, 0x95, 0x13, 0x00, 0x00, 0x00, 0x02];
    bytes.extend_from_slice(&[0xab; 8]);
    bytes.extend_from_slice(&[0; 8]);
    bytes.extend_from_slice(&[0; 4]);
    let answer = request_head(&mut shard, &config, &state, &bytes);
    assert!(answer.send.is_empty());
    assert!(closed_for(&answer, CloseReason::Disconnected));
    assert_eq!(shard.phase(), ShardPhase::Closed);
}

#[test]
fn a_read_returns_the_data_under_the_cookie() {
    let config = config();
    let state = state_with(&[("img", "fs")]);
    let mut shard = transmitting(&config, &state);
    let asked = request_head(&mut shard, &config, &state, &request_header(0, 77, 4096, 3));
    assert!(asked.send.is_empty());
    assert!(matches!(asked.next, ShardNext::Image(ImageOp::Read { offset: 4096, length: 3 })));
    assert_eq!(shard.phase(), ShardPhase::ImageReply { cookie: 77, read: true });
    let done = shard.step(&config, &state, ShardEvent::ImageDone(Ok(vec![1, 2, 3])));
    assert_eq!(done.send, simple_reply(0, 77, &[1, 2, 3]));
    assert!(reads(&done, 4));
    assert_eq!(shard.phase(), ShardPhase::RequestMagic);
}

#[test]
fn a_write_waits_for_its_payload() {
    let config = config();
    let state = state_with(&[("img", "fs")]);
    let mut shard = transmitting(&config, &state);
    let header = request_head(&mut shard, &config, &state, &request_header(1, 5, 512, 4));
    assert!(header.send.is_empty());
    assert!(reads(&header, 4));
    assert_eq!(shard.phase(), ShardPhase::RequestData { flags: 0, cookie: 5, offset: 512, length: 4 });
    let asked = shard.step(&config, &state, ShardEvent::Bytes(vec![9, 8, 7, 6]));
    match &asked.next {
        ShardNext::Image(ImageOp::Write { offset, data }) => {
            assert_eq!(*offset, 512);
            assert_eq!(data, &[9, 8, 7, 6]);
        }
        _ => panic!("the payload must be written"),
    }
    assert_eq!(shard.phase(), ShardPhase::ImageReply { cookie: 5, read: false });
    let done = shard.step(&config, &state, ShardEvent::ImageDone(Ok(vec![0xff])));
    assert_eq!(done.send, simple_reply(0, 5, &[]));
    assert!(reads(&done, 4));
}

#[test]
fn a_short_write_payload_ends_the_connection() {
    let config = config();
    let state = state_with(&[("img", "fs")]);
    let mut shard = transmitting(&config, &state);
    request_head(&mut shard, &config, &state, &request_header(1, 5, 512, 4));
    let answer = shard.step(&config, &state, ShardEvent::Bytes(vec![9, 8, 7]));
    assert!(closed_for(&answer, CloseReason::Protocol(ProtocolError::ShortInput)));
}

#[test]
fn flush_trim_and_write_zeroes_go_to_the_image() {
    let config = config();
    let state = state_with(&[("img", "fs")]);
    let mut shard = transmitting(&config, &state);
    let flush = request_head(&mut shard, &config, &state, &request_header(3, 1, 0, 0));
    assert!(matches!(flush.next, ShardNext::Image(ImageOp::Flush)));
    let done = shard.step(&config, &state, ShardEvent::ImageDone(Ok(Vec::new())));
    assert_eq!(done.send, simple_reply(0, 1, &[]));
    let trim = request_head(&mut shard, &config, &state, &request_header(4, 2, 8, 16));
    assert!(matches!(trim.next, ShardNext::Image(ImageOp::Trim { offset: 8, length: 16 })));
    let done = shard.step(&config, &state, ShardEvent::ImageDone(Ok(Vec::new())));
    assert_eq!(done.send, simple_reply(0, 2, &[]));
    let zero = request_head(&mut shard, &config, &state, &request_header(6, 3, 32, 64));
    assert!(matches!(
        zero.next,
        ShardNext::Image(ImageOp::WriteZeroes { offset: 32, length: 64 })
    ));
    let done = shard.step(&config, &state, ShardEvent::ImageDone(Ok(Vec::new())));
    assert_eq!(done.send, simple_reply(0, 3, &[]));
    assert!(reads(&done, 4));
}

#[test]
fn commands_the_server_does_not_offer_are_not_supported() {
    let config = config();
    let state = state_with(&[("img", "fs")]);
    let mut shard = transmitting(&config, &state);
    for (cmd, cookie) in [(5u16, 10u64), (7, 11), (8, 12)] {
        let answer = request_head(&mut shard, &config, &state, &request_header(cmd, cookie, 0, 0));
        assert_eq!(answer.send, simple_reply(95, cookie, &[]));
        assert!(reads(&answer, 4));
        assert_eq!(shard.phase(), ShardPhase::RequestMagic);
    }
}

#[test]
fn a_failed_operation_is_reported_and_transmission_continues() {
    let config = config();
    let state = state_with(&[("img", "fs")]);
    let mut shard = transmitting(&config, &state);
    let cases = [
        (ErrorKind::PermissionDenied, 1u32),
        (ErrorKind::Other, 5),
        (ErrorKind::NotFound, 5),
        (ErrorKind::InvalidData, 5),
        (ErrorKind::InvalidInput, 22),
        (ErrorKind::StorageFull, 28),
        (ErrorKind::Unsupported, 95),
    ];
    for (failure, errno) in cases {
        request_head(&mut shard, &config, &state, &request_header(0, 9, 0, 8));
        let done = shard.step(&config, &state, ShardEvent::ImageDone(Err(failure)));
        assert_eq!(done.send, simple_reply(errno, 9, &[]));
        assert!(reads(&done, 4));
        assert_eq!(shard.phase(), ShardPhase::RequestMagic);
    }
}

#[test]
fn a_bad_request_ends_the_connection() {
    let config = config();
    let state = state_with(&[("img", "fs")]);
    let mut unknown = transmitting(&config, &state);
    let answer = request_head(&mut unknown, &config, &state, &request_header(9, 0, 0, 0));
    assert!(closed_for(&answer, CloseReason::Protocol(ProtocolError::UnknownCommand)));
    let mut short = transmitting(&config, &state);
    let answer = short.step(&config, &state, ShardEvent::Bytes(vec![0x25, 0x60]));
    assert!(closed_for(&answer, CloseReason::Protocol(ProtocolError::ShortInput)));
}

#[test]
fn an_event_nobody_waits_for_ends_the_connection() {
    let config = config();
    let state = state_with(&[("img", "fs")]);
    let mut fresh = Shard::new();
    let answer = fresh.step(&config, &state, ShardEvent::Bytes(vec![0, 0, 0, 1]));
    assert!(closed_for(&answer, CloseReason::UnexpectedEvent));
    let mut waiting = negotiating(&config, &state, 1);
    let answer = waiting.step(&config, &state, ShardEvent::ImageOpened(image("img", 1)));
    assert!(closed_for(&answer, CloseReason::UnexpectedEvent));
    let mut waiting = negotiating(&config, &state, 1);
    let answer = waiting.step(&config, &state, ShardEvent::ImageDone(Ok(Vec::new())));
    assert!(closed_for(&answer, CloseReason::UnexpectedEvent));
    let mut waiting = negotiating(&config, &state, 1);
    let answer = waiting.step(&config, &state, ShardEvent::Connected);
    assert!(closed_for(&answer, CloseReason::UnexpectedEvent));
    let mut busy = transmitting(&config, &state);
    request_head(&mut busy, &config, &state, &request_header(0, 9, 0, 8));
    let answer = request_head(&mut busy, &config, &state, &request_header(0, 9, 0, 8));
    assert!(closed_for(&answer, CloseReason::UnexpectedEvent));
    let mut opening = negotiating(&config, &state, 1);
    option(&mut opening, &config, &state, 1, b"img/fs");
    let answer = opening.step(&config, &state, ShardEvent::ImageOpenFailed(ErrorKind::Other));
    assert!(closed_for(&answer, CloseReason::OpenFailed(ErrorKind::Other)));
    let answer = opening.step(&config, &state, ShardEvent::ImageOpenFailed(ErrorKind::Other));
    assert!(closed_for(&answer, CloseReason::UnexpectedEvent));
}

#[test]
fn the_catalogue_lists_images_group_after_group() {
    let state = state_with(&[("a", "fs"), ("b", "mem"), ("c", "fs")]);
    let listed: Vec<(String, String)> = state
        .list_images()
        .iter()
        .map(|(driver, desc)| (driver.name().to_string(), desc.full_name()))
        .collect();
    assert_eq!(
        listed,
        vec![
            ("fs".to_string(), "a/fs".to_string()),
            ("fs".to_string(), "c/fs".to_string()),
            ("mem".to_string(), "b/mem".to_string()),
        ]
    );
    assert_eq!(state.list_images_full_name(), vec!["a/fs", "c/fs", "b/mem"]);
}

#[test]
fn an_empty_catalogue_lists_nothing() {
    let state: ServerState<MemDriver> = ServerState::new();
    assert!(state.list_images().is_empty());
    assert!(state.list_images_full_name().is_empty());
    assert!(state.find_image("img/fs").is_none());
    assert!(state.default_driver().is_none());
}

#[test]
fn an_image_is_found_by_its_full_name() {
    let state = state_with(&[("a", "fs"), ("b", "mem"), ("c", "fs")]);
    let (driver, found) = state.find_image("b/mem").unwrap();
    assert_eq!(driver.name(), "mem");
    assert_eq!(found, desc("b", "mem"));
    for text in ["b/fs", "mem/b", "b", "b/mem/", "/mem", "b/", "", "B/mem"] {
        assert!(state.find_image(text).is_none(), "{text:?}");
    }
}

#[test]
fn an_image_whose_names_hold_a_slash_is_listed_but_never_found() {
    let mut state = ServerState::new();
    state.add_image(driver("fs"), desc("a/b", "fs")).unwrap();
    assert_eq!(state.list_images_full_name(), vec!["a/b/fs"]);
    assert!(state.find_image("a/b/fs").is_none());
}

#[test]
fn the_default_driver_can_be_set_and_cleared() {
    let mut state = state_with(&[("a", "fs")]);
    state.set_default_driver(Some(driver("mem")));
    assert_eq!(state.default_driver().unwrap().name(), "mem");
    assert_eq!(state.list_images_full_name(), vec!["a/fs"]);
    state.set_default_driver(None);
    assert!(state.default_driver().is_none());
}

#[test]
fn the_builder_starts_from_the_standard_port() {
    let server: Server<MemDriver> = ServerBuilder::new().build();
    assert_eq!(server.config().port(), 10809);
    assert_eq!(server.config().handshake_flags().bits(), 0x0001);
    assert!(server.state().list_images().is_empty());
    let custom: Server<MemDriver> = ServerBuilder::default().port(1234).build();
    assert_eq!(custom.config().port(), 1234);
    assert_eq!(custom.config().handshake_flags().bits(), 0x0001);
}

#[test]
fn a_server_starts_with_three_handlers() {
    let server: Server<MemDriver> = ServerBuilder::new().build();
    let config = server.config();
    assert_eq!(config.handler(NbdOpt::ExportName), OptionHandler::ExportName);
    assert_eq!(config.handler(NbdOpt::Abort), OptionHandler::Abort);
    assert_eq!(config.handler(NbdOpt::List), OptionHandler::List);
    for opt in [
        NbdOpt::PeekExport,
        NbdOpt::Starttls,
        NbdOpt::Info,
        NbdOpt::Go,
        NbdOpt::StructuredReply,
        NbdOpt::ListMetaContext,
        NbdOpt::SetMetaContext,
        NbdOpt::ExtendedHeaders,
    ] {
        assert_eq!(config.handler(opt), OptionHandler::Unknown);
    }
}

#[test]
fn a_server_hands_out_its_parts_and_fresh_connections() {
    let mut server: Server<MemDriver> = ServerBuilder::new().port(4000).build();
    server.add_image(driver("fs"), desc("img", "fs")).unwrap();
    server.set_default_driver(Some(driver("fs")));
    let shard: Shard = server.new_shard();
    assert_eq!(shard.phase(), ShardPhase::Start);
    assert_eq!(shard.tx_flags().bits(), 0x0065);
    assert_eq!(shard.client_flags().bits(), 0);
    assert!(shard.image().is_none());
    let (config, state) = server.into_parts();
    assert_eq!(config.port(), 4000);
    assert_eq!(state.list_images_full_name(), vec!["img/fs"]);
    assert_eq!(state.default_driver().unwrap().name(), "fs");
}

#[test]
fn the_replies_to_options_are_as_the_handlers_build_them() {
    let unknown = unknown_option_reply(NbdOpt::ExtendedHeaders);
    assert_eq!(unknown.option, NbdOpt::ExtendedHeaders);
    assert_eq!(unknown.reply, NbdOptReply::ErrUnsup);
    assert_eq!(unknown.data, b"unknown option 11");
    assert_eq!(unknown_option_reply(NbdOpt::ExportName).data, b"unknown option 1");
    let abort = abort_reply(NbdOpt::Abort);
    assert_eq!((abort.option, abort.reply), (NbdOpt::Abort, NbdOptReply::Ack));
    assert!(abort.data.is_empty());
    let missing = no_such_export_reply(NbdOpt::ExportName);
    assert_eq!((missing.option, missing.reply), (NbdOpt::ExportName, NbdOptReply::ErrUnknown));
    assert!(missing.data.is_empty());
}

#[test]
fn a_list_entry_frames_the_name() {
    assert_eq!(list_entry("img/fs"), list_payload("img/fs"));
    assert_eq!(list_entry(""), list_payload(""));
    let long = "x".repeat(300);
    let entry = list_entry(&long);
    assert_eq!(&entry[..4], 300u32.to_ne_bytes());
    assert_eq!(entry.len(), 308);
    assert_eq!(list_entry("größe/fs"), list_payload("größe/fs"));
    assert_eq!(list_entry("größe/fs").len(), 4 + 10 + 4);
}

#[test]
fn a_list_answer_ends_with_an_acknowledgement() {
    let names = vec!["a/fs".to_string(), "b/mem".to_string()];
    let replies = list_replies(&names, NbdOpt::List);
    assert_eq!(replies.len(), 3);
    for (reply, name) in replies.iter().zip(&names) {
        assert_eq!(reply.option, NbdOpt::List);
        assert_eq!(reply.reply, NbdOptReply::Server);
        assert_eq!(reply.data, list_payload(name));
    }
    assert_eq!(replies[2].reply, NbdOptReply::Ack);
    assert!(replies[2].data.is_empty());
    let none = list_replies(&Vec::new(), NbdOpt::List);
    assert_eq!(none.len(), 1);
    assert_eq!(none[0].reply, NbdOptReply::Ack);
}

#[test]
fn the_default_catalogue_is_empty() {
    let state: ServerState<MemDriver> = Default::default();
    assert!(state.list_images().is_empty());
    assert!(state.default_driver().is_none());
}

#[test]
fn removing_takes_the_first_image_of_that_descriptor() {
    let mut state = state_with(&[("a", "fs"), ("b", "mem"), ("a", "fs"), ("c", "fs")]);
    assert_eq!(state.list_images_full_name(), vec!["a/fs", "a/fs", "c/fs", "b/mem"]);
    let (from, removed) = state.remove_image(&desc("a", "fs")).unwrap();
    assert_eq!(from.name(), "fs");
    assert_eq!(removed, desc("a", "fs"));
    assert_eq!(state.list_images_full_name(), vec!["a/fs", "c/fs", "b/mem"]);
    let (from, removed) = state.remove_image(&desc("b", "mem")).unwrap();
    assert_eq!(from.name(), "mem");
    assert_eq!(removed, desc("b", "mem"));
    assert_eq!(state.list_images_full_name(), vec!["a/fs", "c/fs"]);
    assert!(state.remove_image(&desc("b", "mem")).is_none());
    assert!(state.remove_image(&desc("a", "mem")).is_none());
    assert_eq!(state.list_images_full_name(), vec!["a/fs", "c/fs"]);
}

#[test]
fn a_group_outlives_its_images() {
    let mut state = state_with(&[("a", "fs"), ("b", "mem")]);
    state.remove_image(&desc("a", "fs")).unwrap();
    state.add_image(driver("zfs"), desc("z", "zfs")).unwrap();
    state.add_image(driver("fs"), desc("c", "fs")).unwrap();
    assert_eq!(state.list_images_full_name(), vec!["c/fs", "b/mem", "z/zfs"]);
}

#[test]
fn an_image_goes_to_the_group_of_its_handle() {
    let mut state = ServerState::new();
    state.add_image(driver("fs"), desc("a", "mem")).unwrap();
    state.add_image(driver("mem"), desc("b", "mem")).unwrap();
    state.add_image(driver("fs"), desc("c", "fs")).unwrap();
    let listed: Vec<(String, String)> = state
        .list_images()
        .iter()
        .map(|(driver, desc)| (driver.name().to_string(), desc.full_name()))
        .collect();
    assert_eq!(
        listed,
        vec![
            ("fs".to_string(), "a/mem".to_string()),
            ("fs".to_string(), "c/fs".to_string()),
            ("mem".to_string(), "b/mem".to_string()),
        ]
    );
    let (driver, found) = state.find_image("a/mem").unwrap();
    assert_eq!(driver.name(), "fs");
    assert_eq!(found, desc("a", "mem"));
}

#[test]
fn an_option_is_asked_for_piece_by_piece() {
    let config = config();
    let state = state_with(&[]);
    let mut shard = negotiating(&config, &state, 1);
    let header = option_header(3, 0);
    let magic = shard.step(&config, &state, ShardEvent::Bytes(header[..8].to_vec()));
    assert!(magic.send.is_empty());
    assert!(reads(&magic, 4));
    assert_eq!(shard.phase(), ShardPhase::OptionCode);
    let code = shard.step(&config, &state, ShardEvent::Bytes(header[8..12].to_vec()));
    assert!(code.send.is_empty());
    assert!(reads(&code, 4));
    assert_eq!(shard.phase(), ShardPhase::OptionLength(NbdOpt::List));
    let length = shard.step(&config, &state, ShardEvent::Bytes(header[12..].to_vec()));
    assert!(length.send.is_empty());
    assert!(reads(&length, 0));
    assert_eq!(
        shard.phase(),
        ShardPhase::OptionData(OptionHeader { option: NbdOpt::List, length: 0 })
    );
}

#[test]
fn a_wrong_option_magic_ends_the_connection_before_more_is_read() {
    let config = config();
    let state = state_with(&[]);
    let mut shard = negotiating(&config, &state, 1);
    let answer = shard.step(&config, &state, ShardEvent::Bytes(b"IHAVEOPX".to_vec()));
    assert!(answer.send.is_empty());
    assert!(closed_for(&answer, CloseReason::Protocol(ProtocolError::BadMagic)));
    assert_eq!(shard.phase(), ShardPhase::Closed);
}

#[test]
fn an_unknown_option_code_ends_the_connection_before_the_length_is_read() {
    let config = config();
    let state = state_with(&[]);
    for code in [0u32, 12, 0xffff_ffff] {
        let mut shard = negotiating(&config, &state, 1);
        let magic = shard.step(&config, &state, ShardEvent::Bytes(b"IHAVEOPT".to_vec()));
        assert!(reads(&magic, 4));
        let answer = shard.step(&config, &state, ShardEvent::Bytes(code.to_be_bytes().to_vec()));
        assert!(answer.send.is_empty());
        assert!(closed_for(&answer, CloseReason::Protocol(ProtocolError::UnknownOption)));
        assert_eq!(shard.phase(), ShardPhase::Closed);
    }
}

#[test]
fn a_request_is_asked_for_magic_first() {
    let config = config();
    let state = state_with(&[("img", "fs")]);
    let mut shard = transmitting(&config, &state);
    let header = request_header(0, 7, 0, 1);
    let magic = shard.step(&config, &state, ShardEvent::Bytes(header[..4].to_vec()));
    assert!(magic.send.is_empty());
    assert!(reads(&magic, 24));
    assert_eq!(shard.phase(), ShardPhase::RequestFields);
    let fields = shard.step(&config, &state, ShardEvent::Bytes(header[4..].to_vec()));
    assert!(matches!(fields.next, ShardNext::Image(ImageOp::Read { offset: 0, length: 1 })));
}

#[test]
fn a_wrong_request_magic_ends_the_connection_before_more_is_read() {
    let config = config();
    let state = state_with(&[("img", "fs")]);
    let mut shard = transmitting(&config, &state);
    let answer = shard.step(&config, &state, ShardEvent::Bytes(vec![0x25, 0x60, 0x95, 0x14]));
    assert!(answer.send.is_empty());
    assert!(closed_for(&answer, CloseReason::Protocol(ProtocolError::BadMagic)));
    assert_eq!(shard.phase(), ShardPhase::Closed);
}
