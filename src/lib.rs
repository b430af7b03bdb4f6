//! Projection of the daemon's domain values into objects of the Android
//! front end's JVM runtime.
//!
//! Each projectable value states, as a spec function, the foreign value it
//! becomes, and `IntoJava::into_java` builds exactly that value as a
//! `JavaValue` tree: classes, constructor descriptors and arguments in order.
//! Whoever holds the runtime's environment walks the tree and makes the calls.
pub mod foreign;
pub mod project;
pub mod net;
pub mod model;
pub mod settings;
pub mod tunnel;
pub mod account;

pub use foreign::JavaValue;
pub use project::IntoJava;
