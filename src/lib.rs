//! A tone generator for an audio plugin host. The generator keeps a sample
//! clock that counts every frame rendered since the instance was created,
//! derives the oscillator's phase from it, and writes one value per frame to
//! every output channel of each block the host hands over.
//!
//! `clock` holds the sample counter and the laws about splitting work into
//! blocks; `plugin` holds the instance, its block renderer and its
//! description.

pub mod clock;
pub mod plugin;
