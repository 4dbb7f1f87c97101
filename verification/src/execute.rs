pub mod play_request;
pub mod receive_randomness;
pub mod set_config;
pub mod update_random_cw_cfg;
pub mod withdraw;
