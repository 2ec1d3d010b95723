pub mod config;
pub mod database;
pub mod exif_fields;
pub mod imaging;
pub mod metadata;
pub mod paths;
pub mod processor;
pub mod raster;
pub mod raw;
pub mod thumbnail;
pub mod timestamp;
