//! The logic of a service that renders sequences to audio files with a scripted browser.
//!
//! Three things happen to the service: it is asked for a render ([`start::start_render`]), a
//! render makes a step ([`render::render`]), and a client asks how a render is coming along
//! ([`poll::poll_render`]). Each is a function from what is known, the records of the service
//! ([`service::RenderService`]) included, to what is to be done next; the doing is left to the
//! caller. [`laws`] and [`run_laws`] state what holds of them together, [`text_laws`] what the
//! texts say that they put together, [`script_laws`] what the scripts do for each other, and
//! [`view_laws`] which values contracts speak of.

pub mod args;
pub mod audio;
pub mod command;
pub mod driver;
pub mod files;
pub mod laws;
pub mod poll;
pub mod render;
pub mod run_laws;
pub mod script_laws;
pub mod scripts;
pub mod sequence;
pub mod service;
pub mod start;
pub mod status;
pub mod text;
pub mod text_laws;
pub mod view_laws;
