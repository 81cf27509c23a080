pub mod events;
pub mod frames;
pub mod properties;
pub mod gradient;
