//! Audio recording core: a single-session capture controller, an
//! uncompressed 16-bit PCM WAV encoder, the naming of saved recordings, and
//! the listing rules for saved recordings and gallery images.
pub mod listing;
pub mod naming;
pub mod recorder;
pub mod wav;
