pub mod change_inactivity_time;
pub mod change_inheritor;
pub mod check_in;
pub mod close_inheritance;
pub mod flip_protocol;
pub mod increase_inheritance;
pub mod increase_inheritance_bounty;
pub mod initialize_config;
pub mod initialize_inheritance;
pub mod reduce_inheritance;
pub mod trigger_inheritance;
pub mod update_config_burned;
pub mod update_config_fees;
pub mod withdraw_sol;
