//! A small abstraction layer over associative containers.
//!
//! Generic algorithms are written once against the [`MapLike`](map_like::MapLike)
//! capability trait and run over either a hash-backed or an ordered container.
//! The [`MultiMap`](multi_map::MultiMap) extension treats a map of sequences as
//! a multi-map, with a convenience accessor for unambiguous (singleton) values;
//! it comes for free on every `MapLike` container through a blanket
//! implementation.

pub mod hash_adapter;
pub mod laws;
pub mod map_like;
pub mod multi_map;
pub mod ordered_adapter;
