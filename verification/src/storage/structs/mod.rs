pub mod car;
pub mod rental;
