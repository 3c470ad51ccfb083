//! Lógica verificada de Joaquincillo, la mascota de escritorio.

pub mod texto;
pub mod settings;
pub mod fecha;
pub mod activity;
pub mod jira;
pub mod calendar;
pub mod ventana;
pub mod updater;
