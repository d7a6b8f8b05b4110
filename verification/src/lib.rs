//! Verified core of a desktop companion app for Roblox Studio.
//!
//! The app lets a locally running Studio plugin request viewport screenshots
//! and speech-to-text / text-to-speech through a small local HTTP API, installs
//! a bundled plugin file into the Roblox plugins directory, and can snap the
//! app window to the Studio window. The OS frameworks that perform the actual
//! capture, recognition and synthesis, and the HTTP plumbing, live outside this
//! crate; this library holds the permission gate, the capture flow, the speech
//! session state machine, the installer decision, the snap-loop decision and
//! the HTTP response shapes, each with a proved contract.

pub mod capture;
pub mod permission;
pub mod plugin;
pub mod server;
pub mod snap;
pub mod speech;
