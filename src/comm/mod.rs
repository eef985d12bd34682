pub mod comm_channel;
pub mod comm_manager;
pub mod event;
pub mod frontend_comm;
pub mod services;
