//! The device report: what a set of shell commands printed on a device,
//! gathered into sections and laid out as one HTML page.

pub mod capture;
pub mod chart;
pub mod html;
pub mod json;
pub mod network;
pub mod number;
pub mod page;
pub mod pattern;
pub mod text;
