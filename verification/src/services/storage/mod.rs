pub mod protocol;
pub mod status;
pub mod rows;
pub mod worker_client;
