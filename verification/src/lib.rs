//! A greeting offered as a native method to two host runtimes: an
//! interpreter with a C function table, and a JVM.
//!
//! The library holds what both bindings decide and compute: the greeting
//! itself, the names under which the methods are registered, the JVM type
//! signature of the bound method, the load hook of the JVM binding and its
//! native method. The entry points that the hosts call by symbol, and the
//! function pointers handed to them, lie outside it.

pub mod call;
pub mod descriptor;
pub mod greeting;
pub mod jni;
pub mod load;
pub mod ruby;
