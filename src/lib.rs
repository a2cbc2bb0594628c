//! An interactive configuration wizard, reduced to its verified core: the
//! rules that turn answers typed at a prompt into a validated [`Config`].
//!
//! The wizard is a state machine over [`Stage`]. Each call of
//! [`Wizard::feed`] consumes one line of input and reports how it was taken;
//! the caller owns the terminal, shows [`Wizard::prompt`] and the messages of
//! [`Feedback`], and stops when the wizard is done.

pub mod input;
pub mod lemmas;
pub mod model;
pub mod wizard;

pub use input::{choose_model, max_tokens_from, server_url_or_default, MenuChoice};
pub use model::{Config, Model, MAX_TOKENS_LIMIT, DEFAULT_SERVER_URL, OLLAMA_MODEL_NAME};
pub use wizard::{advance, Feedback, Stage, Wizard};
