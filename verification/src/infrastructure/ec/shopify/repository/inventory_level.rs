pub mod inventory_level_impl;
