use vstd::prelude::*;

pub mod model;
pub mod text;
pub mod sorting;
pub mod listing;
pub mod dialogs;
pub mod progress;
pub mod batch;
pub mod tabs;
pub mod photo_rot;
pub mod tab_bar;
pub mod laws;
pub mod directory_laws;
