//! State and rules of the secure-input components: the virtual keyboard and
//! the credentials form.

pub mod credentials_form;
pub mod qr_scanner;
pub mod secure_text;
pub mod virtual_keyboard;
