//! Protection of one stored mail-account password behind two authenticated
//! encryption layers and the platform secret store.
//!
//! The first layer binds the secret to the device and the user, the second
//! re-wraps it under a key derived from the user alone, and the result is kept,
//! base64-encoded, in the operating system's secret store.

pub mod error;
pub mod primitives;
pub mod layers;
pub mod vault;

pub use error::{CryptoError, ErrorKind};
pub use layers::{
    layer1_decrypt, layer1_encrypt, layer1_seal, layer2_decrypt, layer2_encrypt, layer2_seal,
    open_inner, open_layers, seal_layers,
};
pub use vault::{
    delete_saved_password, encrypt_and_save_password, layer3_delete, layer3_load, layer3_save,
    load_and_decrypt_password,
};
