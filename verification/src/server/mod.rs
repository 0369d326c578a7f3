//! The server: its configuration, the catalogue of images, and the state
//! machine of a connection.

pub mod config;
pub mod laws;
pub mod options;
pub mod shard;
pub mod state;

use crate::driver::{Driver, DriverImpl, ImageDesc, ImageImpl};
use crate::error::ErrorKind;
use crate::proto::NBD_NEWSTYLE_PORT;
use crate::server::config::{default_option_handlers, ServerConfig, ServerConfigView};
use crate::server::shard::{ServerShard, ShardPhase, ShardView};
use crate::server::state::{ServerState, ServerStateView, MAX_LISTED_NAME_LEN};
use vstd::prelude::*;
use vstd::utf8::encode_utf8;

verus! {

/// Collects the settings of a server.
pub struct ServerBuilder {
    port: u16,
    handshake_flags: u16,
}

impl Default for ServerBuilder {
    /// The standard port, and fixed-newstyle as the only handshake flag.
    fn default() -> (r: Self)
        ensures
            r.spec_port() == NBD_NEWSTYLE_PORT,
            r.spec_handshake_flags() == 0x0001,
    {
        Self { port: NBD_NEWSTYLE_PORT, handshake_flags: 0x0001 }
    }
}

impl ServerBuilder {
    /// The port the server will listen on.
    pub closed spec fn spec_port(&self) -> u16 {
        self.port
    }

    /// The handshake flags the server will announce.
    pub closed spec fn spec_handshake_flags(&self) -> u16 {
        self.handshake_flags
    }

    /// The standard port, and fixed-newstyle as the only handshake flag.
    pub fn new() -> (r: Self)
        ensures
            r.spec_port() == NBD_NEWSTYLE_PORT,
            r.spec_handshake_flags() == 0x0001,
    {
        Self::default()
    }

    /// The same settings with another port.
    pub fn port(self, port: u16) -> (r: Self)
        ensures
            r.spec_port() == port,
            r.spec_handshake_flags() == self.spec_handshake_flags(),
    {
        Self { port, ..self }
    }

    /// A server with these settings, the handlers a server starts with, and
    /// no images.
    pub fn build<D: DriverImpl>(self) -> (r: Server<D>)
        ensures
            r.spec_config() == (ServerConfigView {
                port: self.spec_port(),
                handshake_flags: self.spec_handshake_flags(),
                option_handlers: default_option_handlers(),
            }),
            r.spec_state().default_driver is None,
            r.spec_state().images.len() == 0,
    {
        Server {
            config: ServerConfig::new(self.port, self.handshake_flags),
            state: ServerState::new(),
        }
    }
}

/// A server: the configuration and the catalogue that its connections
/// share. Listening and accepting is input and output and stays with the
/// host, which takes the two parts and runs a [`ServerShard`] for every
/// connection.
pub struct Server<D: DriverImpl> {
    config: ServerConfig,
    state: ServerState<D>,
}

impl<D: DriverImpl> Server<D> {
    /// What the configuration holds.
    pub closed spec fn spec_config(&self) -> ServerConfigView {
        self.config@
    }

    /// What the catalogue holds.
    pub closed spec fn spec_state(&self) -> ServerStateView {
        self.state@
    }

    /// The configuration.
    pub fn config(&self) -> (r: &ServerConfig)
        ensures
            r@ == self.spec_config(),
    {
        &self.config
    }

    /// The catalogue.
    pub fn state(&self) -> (r: &ServerState<D>)
        ensures
            r@ == self.spec_state(),
    {
        &self.state
    }

    /// Adds an image to the catalogue, as [`ServerState::add_image`] does: to
    /// the group of `driver`, or to a new group. An image whose canonical
    /// name is too long to be listed is refused, and the catalogue stays as
    /// it is. The configuration is not touched.
    pub fn add_image(&mut self, driver: Driver<D>, desc: ImageDesc) -> (r: Result<(), ErrorKind>)
        ensures
            final(self).spec_config() == old(self).spec_config(),
            match r {
                Ok(_) => encode_utf8(desc@.full_name()).len() <= MAX_LISTED_NAME_LEN
                    && final(self).spec_state() == old(self).spec_state().with_image(
                    driver.spec_name(),
                    desc@,
                ),
                Err(e) => e == ErrorKind::InvalidInput && encode_utf8(desc@.full_name()).len()
                    > MAX_LISTED_NAME_LEN && final(self).spec_state() == old(self).spec_state(),
            },
    {
        self.state.add_image(driver, desc)
    }

    /// Sets or clears the default driver of the catalogue.
    pub fn set_default_driver(&mut self, driver: Option<Driver<D>>)
        ensures
            final(self).spec_config() == old(self).spec_config(),
            final(self).spec_state().images == old(self).spec_state().images,
            final(self).spec_state().default_driver == match driver {
                Some(d) => Some(d.spec_name()),
                None => None,
            },
    {
        self.state.set_default_driver(driver)
    }

    /// The configuration and the catalogue, for a host that shares them
    /// among its connections.
    pub fn into_parts(self) -> (r: (ServerConfig, ServerState<D>))
        ensures
            r.0@ == self.spec_config(),
            r.1@ == self.spec_state(),
    {
        (self.config, self.state)
    }

    /// The state of a connection that was just accepted.
    pub fn new_shard<I: ImageImpl>(&self) -> (r: ServerShard<I>)
        ensures
            r@ == (ShardView {
                phase: ShardPhase::Start,
                image: None,
                tx_flags: 0x0065,
                client_flags: 0,
            }),
    {
        ServerShard::new()
    }
}

} // verus!
