//! Texture-format logic, transcode target selection, encoder parameter
//! handling and the small C-runtime helpers of the Basis Universal binding,
//! each stated by a contract and proved.

pub mod types;
pub mod formats;
pub mod transcoder;
pub mod encoder;
pub mod text;
pub mod bindgen;
pub mod itoa;
pub mod once;
pub mod atexit;
pub mod cmake;
pub mod loader;
pub mod loader_transcoder;
pub mod libcxx;
pub mod heap;
pub mod saver;
