//! The server side: the checks made while a server is created, and the
//! server's own record of what it publishes.

use vstd::prelude::*;
use vstd::string::StringSliceAdditionalSpecFns;
use crate::error::SyphonError;
use crate::utils::{check_objc_string, first_zero_from, nul_byte_text};

verus! {

/// Decides whether a server named `name` can be created: a Metal device
/// must be available, a server class must exist in the framework, and the
/// name must be a valid C string (no NUL byte).
pub fn prepare_server(device_available: bool, class_found: bool, name: &str) -> (r: Result<(), SyphonError>)
    ensures
        !device_available ==> (r matches Err(SyphonError::CreateFailed(m)) && m@ == "Failed to create Metal device"@),
        device_available && !class_found ==> (r matches Err(SyphonError::FrameworkNotFound(m))
            && m@ == "SyphonMetalServer class not found"@),
        device_available && class_found ==> match first_zero_from(name.spec_bytes(), 0) {
            None => r is Ok,
            Some(pos) => r matches Err(SyphonError::InvalidParameter(m)) && m@ == nul_byte_text(pos as nat),
        },
        r is Ok <==> device_available && class_found
            && (forall|i: int| 0 <= i < name.spec_bytes().len() ==> name.spec_bytes()[i] != 0),
{
    if !device_available {
        return Err(SyphonError::CreateFailed("Failed to create Metal device".to_owned()));
    }
    if !class_found {
        return Err(SyphonError::FrameworkNotFound("SyphonMetalServer class not found".to_owned()));
    }
    check_objc_string(name)
}

/// A Syphon server that publishes frames: the framework's server object `H`
/// with the name and frame size it was created with.
pub struct SyphonServer<H> {
    inner: H,
    name: String,
    width: u32,
    height: u32,
}

impl<H> SyphonServer<H> {
    pub closed spec fn spec_handle(&self) -> H {
        self.inner
    }

    pub closed spec fn spec_name(&self) -> Seq<char> {
        self.name@
    }

    pub closed spec fn spec_dimensions(&self) -> (u32, u32) {
        (self.width, self.height)
    }

    /// The server made from what initialising the framework's server object
    /// gave: nothing (nil) fails the creation.
    pub fn from_init(created: Option<H>, name: &str, width: u32, height: u32) -> (r: Result<Self, SyphonError>)
        ensures
            match created {
                None => r matches Err(SyphonError::CreateFailed(m)) && m@ == "Failed to create SyphonServer"@,
                Some(h) => r matches Ok(s) && s.spec_handle() == h && s.spec_name() == name@
                    && s.spec_dimensions() == (width, height),
            },
    {
        match created {
            None => Err(SyphonError::CreateFailed("Failed to create SyphonServer".to_owned())),
            Some(inner) => Ok(SyphonServer { inner, name: name.to_owned(), width, height }),
        }
    }

    /// Get the server name.
    pub fn name(&self) -> (r: &str)
        ensures
            r@ == self.spec_name(),
    {
        self.name.as_str()
    }

    /// Get dimensions.
    pub fn dimensions(&self) -> (r: (u32, u32))
        ensures
            r == self.spec_dimensions(),
    {
        (self.width, self.height)
    }

    /// The framework's server object.
    pub fn handle(&self) -> (r: &H)
        ensures
            *r == self.spec_handle(),
    {
        &self.inner
    }

    /// Get the number of connected clients. The framework only tells
    /// whether there are any (`reports_clients`), so this is 1 or 0.
    pub fn client_count<F: Fn(&H) -> bool>(&self, reports_clients: F) -> (n: usize)
        requires
            call_requires(reports_clients, (&self.spec_handle(),)),
        ensures
            exists|any: bool| call_ensures(reports_clients, (&self.spec_handle(),), any) && n == (if any { 1usize } else { 0usize }),
    {
        let any = reports_clients(&self.inner);
        if any {
            1
        } else {
            0
        }
    }

    /// Check if any clients are connected.
    pub fn has_clients<F: Fn(&H) -> bool>(&self, reports_clients: F) -> (r: bool)
        requires
            call_requires(reports_clients, (&self.spec_handle(),)),
        ensures
            call_ensures(reports_clients, (&self.spec_handle(),), r),
    {
        self.client_count(reports_clients) > 0
    }
}

} // verus!
