//! The temperature of the CPU die as a tray icon.
//!
//! `temp` finds the hottest die sensor among the sensors of the machine,
//! `icon` draws a temperature as a badge, `tray` decides what each event
//! does to the icon. `celsius` holds the temperatures, `canvas` the drawing
//! surface.

pub mod canvas;
pub mod celsius;
pub mod icon;
pub mod temp;
pub mod tray;
