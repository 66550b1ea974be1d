//! Bridge between a front-end and a command-line encryption engine.
//!
//! The crate turns a typed operation request into the exact list of
//! command-line tokens the engine expects ([`request`], [`seal`],
//! [`unseal`], [`inspect`], [`reseal`], [`tokens`], [`grouping`]), and
//! turns the engine's two text streams and its exit status into a small set
//! of lifecycle events ([`classify`], [`stream`], [`resolve`], [`event`]).
//!
//! Running the engine is left to the caller: the crate never starts a
//! process, reads a stream or reports an event itself.

pub mod classify;
pub mod decimal;
pub mod entropy;
pub mod event;
pub mod grouping;
pub mod inspect;
pub mod json;
pub mod request;
pub mod reseal;
pub mod resolve;
pub mod seal;
pub mod stream;
pub mod text;
pub mod tokens;
pub mod unseal;

pub use classify::{classify_line, ClassifiedSignal};
pub use event::Event;
pub use inspect::{build_container_info_cmd, container_info_once, ContainerInfoArgs, InfoReply};
pub use request::{encode, OperationRequest};
pub use reseal::{build_reseal_cmd, ResealArgs};
pub use resolve::Verdict;
pub use seal::{build_seal_cmd, validate_encrypt, EncryptArgs};
pub use stream::{replay, Outcome, RawLine, StreamOrigin, StreamState};
pub use unseal::{build_unseal_cmd, DecryptArgs};
