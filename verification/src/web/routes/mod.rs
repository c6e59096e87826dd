pub mod events;
pub mod rfcs;
