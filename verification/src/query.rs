pub mod config;
pub mod play_request;
pub mod user_games;
