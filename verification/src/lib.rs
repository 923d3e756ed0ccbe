//! A native-notification facade for a desktop application shell.
//!
//! The facade exposes five operations to an embedded front end: a permission
//! check, a permission request, notification dispatch, sound playback and a
//! window-focus probe. Every decision the facade makes is verified here; the
//! host-runtime calls themselves (the notification plugin, the window handle,
//! the process spawn) are made by the surrounding application shell, which
//! hands their outcomes back as plain values.

pub mod notifications;
