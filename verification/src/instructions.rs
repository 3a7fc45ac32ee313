pub mod donate_sol;
pub mod donate_token;
