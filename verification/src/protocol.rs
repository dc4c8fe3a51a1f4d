pub mod cemi;
pub mod constants;
pub mod frame;
pub mod services;
pub mod tunnel;
pub mod async_tunnel;
