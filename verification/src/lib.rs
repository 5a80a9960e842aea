//! A keyboard-driven terminal dashboard: the screen model, the drawing
//! routines, the form engine, the widgets and the input router, with their
//! behaviour stated in contracts and proved.

pub mod app;
pub mod ascii;
pub mod button;
pub mod calendar;
pub mod clock;
pub mod date;
pub mod db;
pub mod decimal;
pub mod film_tracker;
pub mod form;
pub mod grade_tracker;
pub mod input;
pub mod keys;
pub mod list;
pub mod money_tracker;
pub mod popup;
pub mod progress_bar;
pub mod screens;
pub mod styles;
pub mod surface;
pub mod table;
pub mod text;
pub mod util;
pub mod wait_popup;
