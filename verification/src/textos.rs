//! The wording of the interface in its twenty-three languages.

pub mod interfaz;
pub mod progreso;
pub mod multimedia;
pub mod camara;
pub mod avisos;
pub mod frases;
pub mod recuperacion;
pub mod audio;
pub mod lugares;
pub mod dispositivos;
