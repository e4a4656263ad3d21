//! The names Syphon registers in the Objective-C runtime: the classes the
//! bindings look up and the keys of a server description dictionary.

use vstd::prelude::*;

verus! {

/// The class of a Syphon server; Syphon is available when it is registered.
pub const SERVER_CLASS: &'static str = "SyphonServer";

/// The class of a Syphon server that publishes Metal textures.
pub const METAL_SERVER_CLASS: &'static str = "SyphonMetalServer";

/// The class of a Syphon client that receives Metal textures.
pub const METAL_CLIENT_CLASS: &'static str = "SyphonMetalClient";

/// The class of the shared directory of running servers.
pub const DIRECTORY_CLASS: &'static str = "SyphonServerDirectory";

/// Description key of the server's own name.
pub const NAME_KEY: &'static str = "SyphonServerDescriptionNameKey";

/// Description key of the server's unique identifier.
pub const UUID_KEY: &'static str = "SyphonServerDescriptionUUIDKey";

/// Description key of the name of the application running the server.
pub const APP_NAME_KEY: &'static str = "SyphonServerDescriptionAppNameKey";

/// Description key of the bundle identifier of that application.
pub const BUNDLE_ID_KEY: &'static str = "SyphonServerDescriptionAppBundleIdentifierKey";

} // verus!
