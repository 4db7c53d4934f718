pub mod media_impl;
