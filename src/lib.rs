pub mod container_specs;
pub mod hash;
pub mod merge;
pub mod pusher;
pub mod registry;
pub mod text;
