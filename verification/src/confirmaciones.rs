//! The questions that confirm an operation before it runs, and the counts
//! that describe what it will do.

use vstd::prelude::*;
use crate::cadena::{copiar, decimal, decimal_usize, iguales};
use crate::idioma::Idioma;
use crate::plantilla::{formatear1, formatear2, formato};
use crate::textos::frases::{efecto_apagado, efecto_apagado_spec, efecto_inmediato, efecto_inmediato_spec, efecto_reinicio, efecto_reinicio_spec, frase_expulsion_ligera, frase_expulsion_ligera_spec, frase_expulsion_pesada, frase_expulsion_pesada_spec, frase_recuperacion, frase_recuperacion_spec, generaciones_una_conservada, generaciones_una_conservada_spec, generaciones_una_eliminada, generaciones_una_eliminada_spec, plantilla_actualizacion, plantilla_actualizacion_spec, plantilla_canal, plantilla_canal_spec, plantilla_firmware, plantilla_firmware_spec, plantilla_fuentes, plantilla_fuentes_spec, plantilla_generaciones_conservadas, plantilla_generaciones_conservadas_spec, plantilla_generaciones_eliminadas, plantilla_generaciones_eliminadas_spec, plantilla_limpieza, plantilla_limpieza_profunda, plantilla_limpieza_profunda_spec, plantilla_limpieza_spec};
use crate::textos::interfaz::{texto, texto_spec};

verus! {

pub open spec fn recuperacion_spec(idioma: Idioma) -> Seq<char> {
    frase_recuperacion_spec(idioma)
}

/// Confirmation of a one-time start of an older version (the same for every
/// version).
pub fn frase_confirmar_recuperacion(idioma: Idioma, _id: u32) -> (r: String)
    ensures
        r@ == recuperacion_spec(idioma),
{
    copiar(frase_recuperacion(idioma))
}

pub open spec fn expulsion_spec(idioma: Idioma, pesada: bool) -> Seq<char> {
    if pesada {
        frase_expulsion_pesada_spec(idioma)
    } else {
        frase_expulsion_ligera_spec(idioma)
    }
}

/// Confirmation of a safe eject; a heavy eject first waits for pending data.
pub fn frase_confirmar_expulsion(idioma: Idioma, _dispositivo: &str, pesada: bool) -> (r: String)
    ensures
        r@ == expulsion_spec(idioma, pesada),
{
    if pesada {
        copiar(frase_expulsion_pesada(idioma))
    } else {
        copiar(frase_expulsion_ligera(idioma))
    }
}

pub open spec fn limpieza_spec(idioma: Idioma, eliminar: usize, agresiva: bool) -> Seq<char> {
    formato(
        if agresiva { plantilla_limpieza_profunda_spec(idioma) } else { plantilla_limpieza_spec(idioma) },
        seq![("eliminar"@, decimal(eliminar as nat))],
    )
}

pub fn frase_confirmar_limpieza(idioma: Idioma, eliminar: usize, agresiva: bool) -> (r: String)
    ensures
        r@ == limpieza_spec(idioma, eliminar, agresiva),
{
    let plantilla = if agresiva { plantilla_limpieza_profunda(idioma) } else { plantilla_limpieza(idioma) };
    formatear1(plantilla, "eliminar", decimal_usize(eliminar).as_str())
}

pub open spec fn fuentes_spec(idioma: Idioma, cantidad: usize) -> Seq<char> {
    formato(plantilla_fuentes_spec(idioma), seq![("cantidad"@, decimal(cantidad as nat))])
}

pub fn frase_fuentes(idioma: Idioma, cantidad: usize) -> (r: String)
    ensures
        r@ == fuentes_spec(idioma, cantidad),
{
    formatear1(plantilla_fuentes(idioma), "cantidad", decimal_usize(cantidad).as_str())
}

pub open spec fn actualizacion_spec(idioma: Idioma, cantidad: usize) -> Seq<char> {
    formato(plantilla_actualizacion_spec(idioma), seq![("cantidad"@, decimal(cantidad as nat))])
}

pub fn frase_confirmar_actualizacion(idioma: Idioma, cantidad: usize) -> (r: String)
    ensures
        r@ == actualizacion_spec(idioma, cantidad),
{
    formatear1(plantilla_actualizacion(idioma), "cantidad", decimal_usize(cantidad).as_str())
}

/// How many versions the cleanup keeps and removes, singular for one.
pub open spec fn generaciones_spec(idioma: Idioma, conservar: usize, eliminar: usize) -> Seq<char> {
    let guardadas = if conservar == 1 {
        generaciones_una_conservada_spec(idioma)
    } else {
        formato(plantilla_generaciones_conservadas_spec(idioma), seq![("conservar"@, decimal(conservar as nat))])
    };
    let borradas = if eliminar == 1 {
        generaciones_una_eliminada_spec(idioma)
    } else {
        formato(plantilla_generaciones_eliminadas_spec(idioma), seq![("eliminar"@, decimal(eliminar as nat))])
    };
    guardadas + " · "@ + borradas
}

pub fn frase_generaciones(idioma: Idioma, conservar: usize, eliminar: usize) -> (r: String)
    ensures
        r@ == generaciones_spec(idioma, conservar, eliminar),
{
    let guardadas = if conservar == 1 {
        copiar(generaciones_una_conservada(idioma))
    } else {
        formatear1(plantilla_generaciones_conservadas(idioma), "conservar", decimal_usize(conservar).as_str())
    };
    let borradas = if eliminar == 1 {
        copiar(generaciones_una_eliminada(idioma))
    } else {
        formatear1(plantilla_generaciones_eliminadas(idioma), "eliminar", decimal_usize(eliminar).as_str())
    };
    crate::cadena::unir3(guardadas.as_str(), " · ", borradas.as_str())
}

/// The effect of a firmware update as people read it.
pub open spec fn efecto_spec(idioma: Idioma, efecto: Seq<char>) -> Seq<char> {
    if efecto == "reboot"@ {
        efecto_reinicio_spec(idioma)
    } else if efecto == "shutdown"@ {
        efecto_apagado_spec(idioma)
    } else {
        efecto_inmediato_spec(idioma)
    }
}

pub open spec fn firmware_spec(idioma: Idioma, nombre: Seq<char>, efecto: Seq<char>) -> Seq<char> {
    formato(plantilla_firmware_spec(idioma), seq![("nombre"@, nombre), ("efecto_humano"@, efecto_spec(idioma, efecto))])
}

pub fn frase_confirmar_firmware(idioma: Idioma, nombre: &str, efecto: &str) -> (r: String)
    ensures
        r@ == firmware_spec(idioma, nombre@, efecto@),
{
    let efecto_humano = if iguales(efecto, "reboot") {
        efecto_reinicio(idioma)
    } else if iguales(efecto, "shutdown") {
        efecto_apagado(idioma)
    } else {
        efecto_inmediato(idioma)
    };
    formatear2(plantilla_firmware(idioma), "nombre", nombre, "efecto_humano", efecto_humano)
}

/// Confirmation of a change of channel, naming the channel chosen.
pub open spec fn canal_spec(idioma: Idioma, destino: Seq<char>) -> Seq<char> {
    let canal = texto_spec(idioma, if destino == "unstable"@ { "unstable"@ } else { "stable"@ });
    formato(plantilla_canal_spec(idioma), seq![("canal"@, canal)])
}

pub fn cuerpo_confirmacion_canal(idioma: Idioma, destino: &str) -> (r: String)
    ensures
        r@ == canal_spec(idioma, destino@),
{
    let canal = texto(idioma, if iguales(destino, "unstable") { "unstable" } else { "stable" });
    formatear1(plantilla_canal(idioma), "canal", canal)
}

} // verus!
