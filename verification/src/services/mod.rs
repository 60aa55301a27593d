pub mod data_stores;
pub mod password_hasher;

pub use data_stores::hashmap_two_fa_code_store::HashmapTwoFACodeStore;
pub use data_stores::hashmap_user_store::HashmapUserStore;
pub use data_stores::hashset_banned_token_store::HashsetBannedTokenStore;
pub use data_stores::postgres_user_store::PostgresUserStore;
pub use data_stores::redis_banned_token_store::RedisBannedTokenStore;
pub use data_stores::redis_two_fa_code_store::RedisTwoFACodeStore;
