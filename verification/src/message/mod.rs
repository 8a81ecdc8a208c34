pub mod buffer;
pub mod ipfix;
pub mod netlink;
pub mod saistats;
pub mod swss;
