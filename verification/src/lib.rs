//! Typed bindings for the `org.freedesktop.ColorManager` D-Bus interface and
//! its `Device`, `Profile` and `Sensor` objects.
//!
//! The crate performs no input or output. Every operation of the interface is
//! a pure function that describes a message to put on the bus, and every
//! answer of the bus is a plain value that the description turns back into a
//! typed result, so that the marshalling rules can be stated and proved.

pub mod path;
pub mod text;
pub mod dict;
pub mod value;
pub mod message;
pub mod scope;
pub mod entity;
pub mod profile;
pub mod device;
pub mod sensor;
pub mod color_manager;

pub use color_manager::ColorManager;
pub use device::Device;
pub use profile::Profile;
pub use scope::Scope;
pub use sensor::Sensor;
