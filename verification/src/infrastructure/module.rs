pub mod interact_provider_impl;
