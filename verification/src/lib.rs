//! Typed tensor handles over an inference engine's buffers.
//!
//! A buffer is a numeric array of up to four dimensions that lives in host
//! memory or in device memory. The [`engine::Engine`] owns every buffer and
//! knows each one by its address; it also knows, at run time, which element
//! type a buffer holds. A [`tensor::Tensor`] is a handle on one buffer. Its
//! type parameter is a capability from [`capability`]: it fixes at compile
//! time where the buffer is taken to live, whether the handle owns it or
//! borrows it, and which element type the handle claims.
//!
//! What the types cannot rule out is stated in contracts and proved:
//!
//! - a handle is used only while its buffer is live, and an owned handle
//!   releases its buffer exactly once, by [`tensor::Tensor::destroy`];
//! - host memory is read and written as the handle's element type only after
//!   the buffer's own descriptor was held against that type;
//! - a handle made by [`tensor::Tensor::borrowed`] or
//!   [`tensor::Tensor::borrowed_mut`] stands on the caller's memory: nothing
//!   is copied, and what is written through the handle is written there;
//! - device memory is reached by copies only, which the engine makes or
//!   refuses as a whole.
//!
//! Elements are integers, booleans, or floating-point numbers held by their
//! bits. The module [`laws`] holds what follows from the contracts across
//! several operations.
pub mod capability;
pub mod dimension;
pub mod engine;
pub mod error;
pub mod halide;
pub mod laws;
pub mod raw;
mod seal;
pub mod shape;
pub mod sys;
pub mod tensor;
