//! Core logic of the Roblox account manager: the account roster, the
//! encrypted storage of `.ROBLOSECURITY` cookies, and the appearance and
//! overlay decisions of the user interface.
pub mod appearance;
pub mod audio;
pub mod background;
pub mod crypto;
pub mod error;
pub mod image_codec;
pub mod models;
pub mod neko;
pub mod overlay;
pub mod primitives;
pub mod settings;
pub mod text;

pub use error::CoreError;
pub use models::{Account, AccountStore};
