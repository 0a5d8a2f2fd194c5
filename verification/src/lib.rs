pub mod input;
pub mod listing;
pub mod metadata;
pub mod nav;
pub mod paths;
pub mod preview;
