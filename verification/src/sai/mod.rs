//! SAI (Switch Abstraction Interface) statistic tables.
//!
//! Each statistic enum converts both ways between the C enum's values and
//! names and the Rust variants.
pub mod saibuffer;
pub mod saiport;
pub mod saiqueue;
pub mod saitypes;

pub use saibuffer::{SaiBufferPoolStat, SaiIngressPriorityGroupStat};
pub use saiport::SaiPortStat;
pub use saiqueue::SaiQueueStat;
pub use saitypes::SaiObjectType;
