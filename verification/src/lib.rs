pub mod bytes;
pub mod flate;
pub mod gzip;

pub use crate::gzip::gzip_compress;
pub use crate::gzip::gzip_round_trip;
