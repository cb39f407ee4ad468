// A terminal session and its render/poll event loop, modelled as a state
// machine that an outside driver steps through.
pub mod event;
pub mod laws;
pub mod session;
