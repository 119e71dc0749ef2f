//! A reader and map model for city exports written by CSLMapView:
//! the XML reader's state machine, the feature classifiers, colour and
//! layer rules, and the raster helpers that work on integers.
pub mod text;
pub mod model;
pub mod parser;
pub mod raster;
pub mod image;
pub mod terrain;
pub mod scene;
pub mod export;
pub mod svg;
pub mod style;
pub mod theme;
pub mod navigation;
pub mod xml;
