pub mod inventory_impl;
