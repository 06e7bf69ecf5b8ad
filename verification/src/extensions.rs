//! Extension capability and permission descriptors.

use vstd::prelude::*;

verus! {

/// What an extension is able to provide.
pub enum Capabilities {
    /// Language support, carrying the language's name.
    Lang(&'static str),
    /// User-interface contributions.
    Ui,
    /// Native code.
    Native,
    /// Bundled assets.
    Assets,
}

/// What an extension is allowed to touch.
pub enum Permissions {
    Mic,
    Camera,
    Files,
    Dylib,
    Networking,
}

/// An installed extension.
pub struct Extension {}

} // verus!
