//! Verified core of the Korunix control-center interface: the text rules,
//! the reading of the engine's JSON reports, and the decisions that the
//! graphical shell shows to people.

pub mod cadena;
pub mod json;
pub mod idioma;
pub mod resumen;
pub mod navegacion;
pub mod aplicaciones;
pub mod orden;
pub mod actualizaciones;
pub mod mantenimiento;
pub mod hardware;
pub mod motor;
pub mod plantilla;
pub mod apariencia;
pub mod textos;
pub mod confirmaciones;
pub mod audio;
pub mod localizacion;
pub mod escritorio;
pub mod roles;
pub mod almacenamiento;
pub mod firmware;
pub mod medios;
pub mod copias;
pub mod personas;
pub mod catalogo;
