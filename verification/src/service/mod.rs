pub mod export;
pub mod import;
pub mod intake;
pub mod period;
pub mod validation;
pub mod weight;
