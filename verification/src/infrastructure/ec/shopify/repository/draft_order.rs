pub mod draft_order_impl;
