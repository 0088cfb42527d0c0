//! Grid collages of album artwork with overlaid labels.
pub mod collage;
pub mod constants;
pub mod lastfm;
pub mod raster;
