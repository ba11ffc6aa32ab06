//! The registers behind the eight ports of the picture-processing unit.

pub mod addr_register;
pub mod control_register;
pub mod scroll_register;
pub mod status_register;
