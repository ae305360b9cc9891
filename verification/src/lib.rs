//! Capability configuration and permission policy for an embedded
//! web-rendering engine.
//!
//! A desktop shell that hosts an embedded browser engine needs three things
//! before real-time media capture (camera, microphone, peer-to-peer media)
//! works: the right process-wide environment variables written before the
//! engine initializes, the right feature toggles set on the engine's live
//! settings object, and a policy that resolves the engine's runtime
//! permission prompts for media-device access. This crate holds that
//! decision logic:
//!
//! - [`matrix`]: the static per-platform table of required environment
//!   variables and engine settings;
//! - [`environment`]: the model of the process environment and the
//!   operation that writes the matrix's variables into it;
//! - [`injector`]: the operation that applies an engine-settings
//!   specification to a (possibly unavailable) engine settings handle;
//! - [`interceptor`]: the total decision function over permission-request
//!   kinds, and its registration on a handle.
//!
//! The shell around this crate owns the actual window, webview and process:
//! it performs the environment writes and the engine calls, in the order
//! the contracts here describe.

pub mod environment;
pub mod injector;
pub mod interceptor;
pub mod matrix;
