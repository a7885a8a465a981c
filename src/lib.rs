pub mod aead;
pub mod crypt;
pub mod encoding;
pub mod error;
pub mod message;
pub mod profiles;

pub use crypt::{AuthenticatedPacket, CryptoContext, CryptoPacket, PublicContext, SealedPacket};
pub use error::{Error, Result};
pub use message::{ClientMessage, NetworkMessage, ServerMessage};
pub use profiles::{ServerProfile, UserMetadata, UserProfile};
