//! Bookkeeping of a stackful-coroutine runtime: handles, the slab of
//! instance slots, the lifecycle of an instance and the layout of a
//! saved context.
pub mod handle;
pub mod slab;
pub mod memory;
pub mod protocol;
pub mod manager;
pub mod context;
pub mod stacks;
pub mod transfer;
