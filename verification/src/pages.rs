//! What the keys and the entered values do on each tab.

pub mod instances;
pub mod tools;
pub mod tunnels;
pub mod vpn;
