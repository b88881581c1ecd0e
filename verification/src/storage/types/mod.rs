pub mod car_status;
pub mod errors;
pub mod identity;
pub mod ledger;
pub mod record;
pub mod storage;
