//! The configuration all connections of a server share.

use crate::proto::{NbdHandshakeFlag, NbdOpt};
use crate::server::options::OptionHandler;
use std::collections::HashMap;
use vstd::prelude::*;

verus! {

/// What a [`ServerConfig`] holds.
pub struct ServerConfigView {
    /// The TCP port the server listens on.
    pub port: u16,
    /// The flags of the banner.
    pub handshake_flags: u16,
    /// The handler of each option code that has one.
    pub option_handlers: Map<u32, OptionHandler>,
}

impl ServerConfigView {
    /// The handler that answers `opt`: the one the option is mapped to, or
    /// the one for unknown options.
    pub open spec fn handler(self, opt: NbdOpt) -> OptionHandler {
        if self.option_handlers.contains_key(opt.code()) {
            self.option_handlers[opt.code()]
        } else {
            OptionHandler::Unknown
        }
    }
}

/// The handlers a server starts with: export name, abort and list.
pub open spec fn default_option_handlers() -> Map<u32, OptionHandler> {
    Map::<u32, OptionHandler>::empty().insert(
        NbdOpt::ExportName.code(),
        OptionHandler::ExportName,
    ).insert(NbdOpt::Abort.code(), OptionHandler::Abort).insert(
        NbdOpt::List.code(),
        OptionHandler::List,
    )
}

/// The port, the handshake flags and the option handlers of a server.
pub struct ServerConfig {
    port: u16,
    handshake_flags: u16,
    option_handlers: HashMap<u32, OptionHandler>,
}

impl ServerConfig {
    /// What the configuration holds.
    pub closed spec fn view(&self) -> ServerConfigView {
        ServerConfigView {
            port: self.port,
            handshake_flags: self.handshake_flags,
            option_handlers: self.option_handlers@,
        }
    }

    /// A configuration with the handlers a server starts with.
    pub fn new(port: u16, handshake_flags: u16) -> (r: Self)
        ensures
            r@ == (ServerConfigView {
                port,
                handshake_flags,
                option_handlers: default_option_handlers(),
            }),
    {
        let mut config = ServerConfig { port, handshake_flags, option_handlers: HashMap::new() };
        config.setup_option_handlers();
        config
    }

    fn setup_option_handlers(&mut self)
        requires
            old(self)@.option_handlers == Map::<u32, OptionHandler>::empty(),
        ensures
            final(self)@ == (ServerConfigView {
                option_handlers: default_option_handlers(),
                ..old(self)@
            }),
    {
        self.insert_handler(NbdOpt::ExportName, OptionHandler::ExportName);
        self.insert_handler(NbdOpt::Abort, OptionHandler::Abort);
        self.insert_handler(NbdOpt::List, OptionHandler::List);
    }

    /// Maps `opt` to `handler`, in place of the handler it had.
    pub fn insert_handler(&mut self, opt: NbdOpt, handler: OptionHandler)
        ensures
            final(self)@ == (ServerConfigView {
                option_handlers: old(self)@.option_handlers.insert(opt.code(), handler),
                ..old(self)@
            }),
    {
        self.option_handlers.insert(opt.code(), handler);
    }

    /// The handler that answers `opt`.
    pub fn handler(&self, opt: NbdOpt) -> (r: OptionHandler)
        ensures
            r == self@.handler(opt),
    {
        let code = opt.code();
        match self.option_handlers.get(&code) {
            Some(handler) => *handler,
            None => OptionHandler::Unknown,
        }
    }

    /// The TCP port the server listens on.
    pub fn port(&self) -> (r: u16)
        ensures
            r == self@.port,
    {
        self.port
    }

    /// The flags of the banner.
    pub fn handshake_flags(&self) -> (r: NbdHandshakeFlag)
        ensures
            r@ == self@.handshake_flags,
    {
        NbdHandshakeFlag::from_bits_retain(self.handshake_flags)
    }
}

} // verus!
