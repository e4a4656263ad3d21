//! Error types for Syphon.

use vstd::prelude::*;
use crate::utils::{decimal, decimal_text};

verus! {

/// Errors that can occur when using Syphon.
#[derive(Debug, Clone, PartialEq, Eq)]
pub enum SyphonError {
    /// Syphon is not available on this platform
    NotAvailable,
    /// The Syphon framework could not be found
    FrameworkNotFound(String),
    /// Failed to create a server or client
    CreateFailed(String),
    /// Server with the given name was not found
    ServerNotFound(String),
    /// Multiple servers match the given name: connect by UUID instead
    AmbiguousServerName(String),
    /// Invalid parameter was provided
    InvalidParameter(String),
    /// Failed to publish a frame
    PublishFailed(String),
    /// Failed to receive a frame
    ReceiveFailed(String),
    /// An Objective-C exception was thrown
    ObjcException,
    /// Failed to lock/unlock an IOSurface
    LockFailed,
    /// The received frame was invalid
    InvalidFrame,
    /// IOSurface operation failed
    IOSurfaceError(u32),
    /// Texture operation failed
    TextureError(String),
    /// Other error
    Other(String),
}

/// The human-readable text of an error, as shown to users.
pub open spec fn error_text(e: SyphonError) -> Seq<char> {
    match e {
        SyphonError::NotAvailable => "Syphon is not available on this platform"@,
        SyphonError::FrameworkNotFound(msg) => "Syphon framework not found: "@ + msg@,
        SyphonError::CreateFailed(msg) => "Failed to create Syphon object: "@ + msg@,
        SyphonError::ServerNotFound(name) => "Syphon server '"@ + name@ + "' not found"@,
        SyphonError::AmbiguousServerName(name) => "Multiple Syphon servers named '"@ + name@
            + "' \u{2014} use connect_by_info() with a UUID for precise selection"@,
        SyphonError::InvalidParameter(msg) => "Invalid parameter: "@ + msg@,
        SyphonError::PublishFailed(msg) => "Failed to publish frame: "@ + msg@,
        SyphonError::ReceiveFailed(msg) => "Failed to receive frame: "@ + msg@,
        SyphonError::ObjcException => "Objective-C exception was thrown"@,
        SyphonError::LockFailed => "Failed to lock/unlock IOSurface"@,
        SyphonError::InvalidFrame => "Invalid frame received"@,
        SyphonError::IOSurfaceError(code) => "IOSurface error: "@ + decimal(code as nat),
        SyphonError::TextureError(msg) => "Texture error: "@ + msg@,
        SyphonError::Other(msg) => msg@,
    }
}

fn text_around(prefix: &str, middle: &String, suffix: &str) -> (s: String)
    ensures
        s@ == prefix@ + middle@ + suffix@,
{
    let mut s = prefix.to_owned();
    s.append(middle.as_str());
    s.append(suffix);
    s
}

impl SyphonError {
    /// The message that describes this error to users.
    pub fn to_string(&self) -> (s: String)
        ensures
            s@ == error_text(*self),
    {
        proof {
            reveal_strlit("");
        }
        match self {
            SyphonError::NotAvailable => "Syphon is not available on this platform".to_owned(),
            SyphonError::FrameworkNotFound(msg) => text_around("Syphon framework not found: ", msg, ""),
            SyphonError::CreateFailed(msg) => text_around("Failed to create Syphon object: ", msg, ""),
            SyphonError::ServerNotFound(name) => text_around("Syphon server '", name, "' not found"),
            SyphonError::AmbiguousServerName(name) => text_around(
                "Multiple Syphon servers named '",
                name,
                "' \u{2014} use connect_by_info() with a UUID for precise selection",
            ),
            SyphonError::InvalidParameter(msg) => text_around("Invalid parameter: ", msg, ""),
            SyphonError::PublishFailed(msg) => text_around("Failed to publish frame: ", msg, ""),
            SyphonError::ReceiveFailed(msg) => text_around("Failed to receive frame: ", msg, ""),
            SyphonError::ObjcException => "Objective-C exception was thrown".to_owned(),
            SyphonError::LockFailed => "Failed to lock/unlock IOSurface".to_owned(),
            SyphonError::InvalidFrame => "Invalid frame received".to_owned(),
            SyphonError::IOSurfaceError(code) => {
                let digits = decimal_text(*code as u64);
                text_around("IOSurface error: ", &digits, "")
            },
            SyphonError::TextureError(msg) => text_around("Texture error: ", msg, ""),
            SyphonError::Other(msg) => msg.clone(),
        }
    }
}

} // verus!
