pub mod sea_orm_manager;
