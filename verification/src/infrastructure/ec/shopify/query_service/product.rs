pub mod product_impl;
