pub mod app_state;
pub mod auth;
pub mod constants;
pub mod data_stores;
pub mod email;
pub mod email_client;
pub mod error;
pub mod hash_utils;
pub mod hashmap_2fa_code_store;
pub mod hashmap_user_store;
pub mod hashset_token_store;
pub mod login;
pub mod logout;
pub mod obfuscate;
pub mod password;
pub mod signup;
pub mod smoker;
pub mod strings;
pub mod user;
pub mod user_record;
pub mod verify_2fa;
pub mod verify_token;
