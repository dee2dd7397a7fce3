//! A minimal erased value box: a value paired with the runtime identity of
//! the concrete type it was built from, with checked accessors that hand the
//! value back only to a caller who asks for that very type.

pub mod any_of;
pub mod tag;

pub use any_of::debug_wrap;
pub use any_of::AnyOf;
pub use tag::AnyTag;
