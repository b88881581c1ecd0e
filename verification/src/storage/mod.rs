pub mod admin;
pub mod car;
pub mod car_owners;
pub mod commission;
pub mod contract_balance;
pub mod rental;
pub mod structs;
pub mod token;
pub mod types;
