//! A small terminal shell: which page is shown, how keys move between pages,
//! and what each frame holds. Drawing and reading keys are left to the caller.
pub mod nav;
pub mod screen;
