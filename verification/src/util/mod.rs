pub mod checksum;
pub mod sort;
