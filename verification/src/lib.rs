//! Merecat's application core: the typed action vocabulary, the pane model,
//! the permission rings, and the pure state machines and parsers the desktop
//! host drives. Everything here is platform-free; the host wires it to
//! windows, disks and services.

pub mod frisket;
pub mod action;
pub mod ring;
pub mod envelope;
pub mod text;
pub mod content;
pub mod pane;
pub mod scenario;
pub mod observe;
pub mod paths;
pub mod session;
pub mod identity;
pub mod recycle;
pub mod denizen;
pub mod place;
pub mod knot;
pub mod script;
pub mod sections;
pub mod browse;
pub mod spine;
pub mod gloss;
pub mod palette;
pub mod intents;
pub mod lens;
pub mod omnibar;
