pub mod pda;
