//! Core of a weather panel applet: forecast shaping, alert classification,
//! location handling and the applet's state machine, with their contracts.
pub mod text;
pub mod types;
pub mod config;
pub mod summary;
pub mod model;
pub mod model_laws;
pub mod geocoding;
pub mod nws;
pub mod open_meteo;
pub mod backend;
