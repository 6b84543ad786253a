//! Vapourfly desktop state logic: background job bookkeeping, theme
//! selection, library filtering and sorting, the playlist editor, the
//! write-confirmation flow, the adoption of finished background results,
//! the request forms and settings, and the small
//! text rules the screens rely on, each stated and proved with Verus.

pub mod jobs;
pub mod theme;
pub mod text;
pub mod library;
pub mod playlist;
pub mod captions;
pub mod navigation;
pub mod sources;
pub mod cards;
pub mod browse;
pub mod insights;
pub mod prefs;
pub mod generators;
pub mod discover;
pub mod editor;
pub mod writes;
pub mod requests;
pub mod settings;
pub mod demo;
pub mod rules;
pub mod junk;
pub mod frame;
pub mod records;
pub mod app_state;
