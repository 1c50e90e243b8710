pub mod delete_memo;
pub mod initialize_mint;
pub mod send_memo;
