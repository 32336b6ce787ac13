pub mod cart;
pub mod hw_mbc5;
