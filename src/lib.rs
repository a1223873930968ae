//! Core logic of a restaurant browser: business records and the text shown
//! for them, the image cache filled by network fetches, the per-card image
//! binding, and the navigation and screen state of the user interface.

pub mod text;
pub mod business;
pub mod image_cache;
pub mod fetch;
pub mod refresh_cycle;
pub mod card;
pub mod screens;
pub mod navigation;
