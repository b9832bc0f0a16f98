pub mod dispatch;
pub mod handler;
pub mod implementors;
pub mod key_code;
pub mod keyboard;

pub use dispatch::{Discipline, KeyEvent, Registry};
pub use handler::{KeyEventKind, KeyHandler};
pub use key_code::{resolve, KeyError, KeyIdentity, KNOWN_CODES};
pub use keyboard::KeyboardHandler;
pub use uievents_code;
