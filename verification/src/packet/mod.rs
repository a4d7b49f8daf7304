pub mod types;
pub mod checksum;
pub mod builders;
pub mod parsers;
