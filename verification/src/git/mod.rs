//! Git synchronisation of the vault: the command protocol, the debounce
//! schedule and the conflict dialogue.
pub mod conflict;
pub mod debounce;
pub mod sync;
