//! The state of a wgpu frame receiver: which server it is connected to and
//! the output texture it renders received frames into.
//!
//! The receiver is generic over the client handle `C` (a connected Syphon
//! client) and the texture type `T`; the front end supplies both.

use vstd::prelude::*;
use crate::directory::{ServerInfo, display_text};
use crate::error::SyphonError;

verus! {

/// A wgpu frame receiver's connection and texture state.
pub struct SyphonWgpuInput<C, T> {
    client: Option<C>,
    connected_server: Option<String>,
    pool_texture: Option<T>,
    pool_width: u32,
    pool_height: u32,
}

impl<C, T> SyphonWgpuInput<C, T> {
    pub closed spec fn spec_client(&self) -> Option<C> {
        self.client
    }

    pub closed spec fn spec_server(&self) -> Option<Seq<char>> {
        match self.connected_server {
            Some(s) => Some(s@),
            None => None,
        }
    }

    pub closed spec fn spec_texture(&self) -> Option<T> {
        self.pool_texture
    }

    pub closed spec fn spec_texture_size(&self) -> (u32, u32) {
        (self.pool_width, self.pool_height)
    }

    /// A receiver that holds a client always knows the server's name.
    #[verifier::type_invariant]
    spec fn named_while_connected(&self) -> bool {
        self.client is Some ==> self.connected_server is Some
    }

    /// Create a new, unconnected input receiver.
    pub fn new() -> (input: Self)
        ensures
            input.spec_client() is None,
            input.spec_server() is None,
            input.spec_texture() is None,
            input.spec_texture_size() == (0u32, 0u32),
    {
        SyphonWgpuInput { client: None, connected_server: None, pool_texture: None, pool_width: 0, pool_height: 0 }
    }

    /// Record the outcome of connecting to the server named `server_name`:
    /// on success the receiver keeps the client and the name; on failure it
    /// is left as it was and the error is returned.
    pub fn connect(&mut self, server_name: &str, connected: Result<C, SyphonError>) -> (r: Result<(), SyphonError>)
        ensures
            match connected {
                Ok(c) => {
                    &&& r is Ok
                    &&& final(self).spec_client() == Some(c)
                    &&& final(self).spec_server() == Some(server_name@)
                    &&& final(self).spec_texture() == old(self).spec_texture()
                    &&& final(self).spec_texture_size() == old(self).spec_texture_size()
                },
                Err(e) => r == Err::<(), SyphonError>(e) && *final(self) == *old(self),
            },
    {
        proof {
            use_type_invariant(&*self);
        }
        match connected {
            Ok(client) => {
                self.connected_server = Some(server_name.to_owned());
                self.client = Some(client);
                Ok(())
            },
            Err(e) => Err(e),
        }
    }

    /// Record the outcome of connecting to the server described by `info`
    /// (matched by UUID); the receiver names it by its display name.
    pub fn connect_by_info(&mut self, info: &ServerInfo, connected: Result<C, SyphonError>) -> (r: Result<(), SyphonError>)
        ensures
            match connected {
                Ok(c) => {
                    &&& r is Ok
                    &&& final(self).spec_client() == Some(c)
                    &&& final(self).spec_server() == Some(display_text(*info))
                    &&& final(self).spec_texture() == old(self).spec_texture()
                    &&& final(self).spec_texture_size() == old(self).spec_texture_size()
                },
                Err(e) => r == Err::<(), SyphonError>(e) && *final(self) == *old(self),
            },
    {
        proof {
            use_type_invariant(&*self);
        }
        match connected {
            Ok(client) => {
                self.connected_server = Some(info.display_name().to_owned());
                self.client = Some(client);
                Ok(())
            },
            Err(e) => Err(e),
        }
    }

    /// Drop the client, the server name and the output texture.
    pub fn disconnect(&mut self)
        ensures
            final(self).spec_client() is None,
            final(self).spec_server() is None,
            final(self).spec_texture() is None,
            final(self).spec_texture_size() == old(self).spec_texture_size(),
    {
        proof {
            use_type_invariant(&*self);
        }
        self.client = None;
        self.connected_server = None;
        self.pool_texture = None;
    }

    /// Whether the receiver holds a client that `client_is_valid` reports
    /// valid. A connected receiver always has a server name.
    pub fn is_connected<F: Fn(&C) -> bool>(&self, client_is_valid: F) -> (r: bool)
        requires
            self.spec_client() matches Some(c) ==> call_requires(client_is_valid, (&c,)),
        ensures
            self.spec_client() is None ==> !r,
            self.spec_client() matches Some(c) ==> call_ensures(client_is_valid, (&c,), r),
            r ==> self.spec_server() is Some,
    {
        proof {
            use_type_invariant(self);
        }
        match &self.client {
            Some(c) => client_is_valid(c),
            None => false,
        }
    }

    /// The client, when connected.
    pub fn client(&self) -> (r: Option<&C>)
        ensures
            match self.spec_client() {
                Some(c) => r == Some(&c),
                None => r is None,
            },
    {
        self.client.as_ref()
    }

    /// Get connected server name; there is one whenever a client is held.
    pub fn server_name(&self) -> (r: Option<&str>)
        ensures
            match self.spec_server() {
                Some(s) => r matches Some(n) && n@ == s,
                None => r is None,
            },
            self.spec_client() is Some ==> r is Some,
    {
        proof {
            use_type_invariant(self);
        }
        match &self.connected_server {
            Some(s) => Some(s.as_str()),
            None => None,
        }
    }

    /// Whether a frame of `width` x `height` needs a new output texture:
    /// there is none, or it has other dimensions.
    pub fn needs_new_texture(&self, width: u32, height: u32) -> (r: bool)
        ensures
            r == (self.spec_texture() is None || self.spec_texture_size() != (width, height)),
    {
        self.pool_texture.is_none() || self.pool_width != width || self.pool_height != height
    }

    /// Keep `texture` as the output texture for frames of `width` x `height`.
    pub fn install_texture(&mut self, texture: T, width: u32, height: u32)
        ensures
            final(self).spec_texture() == Some(texture),
            final(self).spec_texture_size() == (width, height),
            final(self).spec_client() == old(self).spec_client(),
            final(self).spec_server() == old(self).spec_server(),
    {
        proof {
            use_type_invariant(&*self);
        }
        self.pool_texture = Some(texture);
        self.pool_width = width;
        self.pool_height = height;
    }

    /// The output texture, while the receiver holds one.
    pub fn texture(&self) -> (r: Option<&T>)
        ensures
            match self.spec_texture() {
                Some(t) => r == Some(&t),
                None => r is None,
            },
    {
        self.pool_texture.as_ref()
    }

    /// Hand the output texture to the caller; the receiver no longer holds
    /// one, so the next frame gets a new texture.
    pub fn take_texture(&mut self) -> (r: Option<T>)
        ensures
            r == old(self).spec_texture(),
            final(self).spec_texture() is None,
            final(self).spec_texture_size() == old(self).spec_texture_size(),
            final(self).spec_client() == old(self).spec_client(),
            final(self).spec_server() == old(self).spec_server(),
    {
        proof {
            use_type_invariant(&*self);
        }
        let mut texture: Option<T> = None;
        std::mem::swap(&mut texture, &mut self.pool_texture);
        texture
    }
}

/// A receiver meant for a future zero-copy path; for now it behaves as the
/// plain receiver it wraps and counts no frames.
pub struct SyphonWgpuInputOptimized<C, T> {
    inner: SyphonWgpuInput<C, T>,
}

impl<C, T> SyphonWgpuInputOptimized<C, T> {
    pub closed spec fn spec_inner(&self) -> SyphonWgpuInput<C, T> {
        self.inner
    }

    /// Create a new, unconnected receiver.
    pub fn new() -> (input: Self)
        ensures
            input.spec_inner().spec_client() is None,
            input.spec_inner().spec_server() is None,
            input.spec_inner().spec_texture() is None,
            input.spec_inner().spec_texture_size() == (0u32, 0u32),
    {
        SyphonWgpuInputOptimized { inner: SyphonWgpuInput::new() }
    }

    /// Connect to a Syphon server (see [`SyphonWgpuInput::connect`]).
    pub fn connect(&mut self, server_name: &str, connected: Result<C, SyphonError>) -> (r: Result<(), SyphonError>)
        ensures
            match connected {
                Ok(c) => {
                    &&& r is Ok
                    &&& final(self).spec_inner().spec_client() == Some(c)
                    &&& final(self).spec_inner().spec_server() == Some(server_name@)
                    &&& final(self).spec_inner().spec_texture() == old(self).spec_inner().spec_texture()
                    &&& final(self).spec_inner().spec_texture_size() == old(self).spec_inner().spec_texture_size()
                },
                Err(e) => r == Err::<(), SyphonError>(e) && *final(self) == *old(self),
            },
    {
        self.inner.connect(server_name, connected)
    }

    /// Disconnect from current server.
    pub fn disconnect(&mut self)
        ensures
            final(self).spec_inner().spec_client() is None,
            final(self).spec_inner().spec_server() is None,
            final(self).spec_inner().spec_texture() is None,
            final(self).spec_inner().spec_texture_size() == old(self).spec_inner().spec_texture_size(),
    {
        self.inner.disconnect()
    }

    /// Check if connected to a server.
    pub fn is_connected<F: Fn(&C) -> bool>(&self, client_is_valid: F) -> (r: bool)
        requires
            self.spec_inner().spec_client() matches Some(c) ==> call_requires(client_is_valid, (&c,)),
        ensures
            self.spec_inner().spec_client() is None ==> !r,
            self.spec_inner().spec_client() matches Some(c) ==> call_ensures(client_is_valid, (&c,), r),
            r ==> self.spec_inner().spec_server() is Some,
    {
        self.inner.is_connected(client_is_valid)
    }

    /// Get connected server name.
    pub fn server_name(&self) -> (r: Option<&str>)
        ensures
            match self.spec_inner().spec_server() {
                Some(s) => r matches Some(n) && n@ == s,
                None => r is None,
            },
            self.spec_inner().spec_client() is Some ==> r is Some,
    {
        self.inner.server_name()
    }

    /// Get frame count: this receiver counts no frames.
    pub fn frame_count(&self) -> (n: u64)
        ensures
            n == 0,
    {
        0
    }

    /// The plain receiver this one wraps.
    pub fn input_mut(&mut self) -> (r: &mut SyphonWgpuInput<C, T>)
        ensures
            *r == old(self).spec_inner(),
            final(self).spec_inner() == *final(r),
    {
        &mut self.inner
    }
}

} // verus!
