pub mod location_impl;
