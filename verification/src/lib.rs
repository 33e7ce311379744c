//! The core of a small HTTP probe: one request in flight at a time, its
//! response classified as text, image or opaque, and at most one decoded
//! image resident as a texture.
//!
//! Nothing here performs I/O. `fetch` decides which request is outstanding
//! and which outcome may be seen; `resource` classifies an outcome;
//! `texture` keeps the one resident texture; `bar`, `center` and `web_app`
//! decide, frame by frame, what to send and what to draw. Whoever runs the
//! probe performs the requests, reports their outcomes, and draws.
//!
//! # What is assumed
//!
//! Everything is proved against its contract except five calls into other
//! code, whose contracts are taken on trust:
//!
//! - `text::ascii_lowercase`: `str::to_ascii_lowercase`;
//! - `pixels::decode_rgba`: `image::load_from_memory` and the conversion to
//!   RGBA, whose result is only named (`pixels::rgba_decoding`);
//! - `resource::decode_lossy`: `String::from_utf8_lossy`, whose result is
//!   named (`resource::lossy_utf8`) and known on valid UTF-8;
//! - `texture::allocate` and `texture::free`: `alloc` and `free` of
//!   `epi::backend::TexAllocationData`, stated over what the ledger lists
//!   (`texture::pending_creations`, `texture::pending_destructions`).

pub mod bar;
pub mod center;
pub mod fetch;
pub mod headers;
pub mod pixels;
pub mod request;
pub mod resource;
pub mod response;
pub mod text;
pub mod texture;
pub mod web_app;
