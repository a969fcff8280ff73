//! Transaction interpretation and signing authorization core: resumable,
//! token-driven interpreters for a chain transaction document, the
//! capability policy applied to its signers, and the command session that
//! selects which operation is live.

pub mod bounded;
pub mod coverage;
pub mod token;
pub mod capability_args;
pub mod text;
pub mod policy;
pub mod cross_chain;
pub mod frame;
pub mod document;
pub mod session;
