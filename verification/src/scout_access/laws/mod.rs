//! What holds of the contract as a whole.
pub mod administration;
pub mod commit;
pub mod contacts;
pub mod effects;
pub mod fees;
pub mod history;
pub mod host;
pub mod life;
pub mod order;
pub mod queries;
pub mod reads;
pub mod requests;
pub mod soundness;
pub mod subscriptions;
pub mod trials;
