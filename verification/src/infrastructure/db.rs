pub mod sea_orm;
pub mod transaction_middleware;
