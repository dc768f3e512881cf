//! The decisions of a GTK front end for the xi editor core: how messages of
//! the core are routed, what keys and mouse buttons do, how views, styles and
//! themes are kept, and the text that the views show in titles and gutters.

use vstd::prelude::*;

pub mod text;
pub mod json;
pub mod controller;
pub mod styles;
pub mod main_win;
pub mod edit_view;
pub mod keys;
pub mod scrollable_drawing_area;
pub mod startup;

verus! {

} // verus!
