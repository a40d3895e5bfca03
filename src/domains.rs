pub mod entry;
pub mod work;
