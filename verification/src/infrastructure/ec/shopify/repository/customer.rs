pub mod customer_impl;
