//! The commands of the script language, one module each.

pub mod expect;
pub mod key_press;
pub mod send_input;
pub mod show;
pub mod type_text;
pub mod wait;

pub use expect::Expect;
pub use key_press::KeyPress;
pub use send_input::SendInput;
pub use show::Show;
pub use type_text::TypeText;
pub use wait::Wait;
