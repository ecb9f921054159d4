//! Protocol engine for a wall of LED tiles, each reached over its own serial
//! link.
//!
//! The crate holds the wire protocol and the rules around it: status codes,
//! checksums, the pixel order of a tile, delta frames, the exchange that each
//! command runs through, and the arrangement of tiles in a wall. It performs
//! no input or output itself. A command is started on a [`tile::Tile`] and
//! yields an [`exchange::Exchange`] that names the next thing to do on the
//! link; the caller does it and reports back what happened.

pub mod checksum;
pub mod clock;
pub mod delta;
pub mod exchange;
pub mod index_map;
pub mod layout;
pub mod status_code;
pub mod tile;
pub mod wall;
