//! Auto-actualización: cuándo está configurada y qué se le dice al usuario tras
//! una comprobación pedida a mano.

use vstd::prelude::*;
use crate::settings::Settings;
use crate::texto::{recortado, recortar_espacios};

verus! {

/// El repositorio de actualizaciones, sin espacios a los lados.
pub fn repositorio(cfg: &Settings) -> (r: String)
    ensures
        r@ == recortado(cfg@.github_repo),
{
    recortar_espacios(cfg.github_repo.as_str())
}

/// ¿Está configurada la auto-actualización? (hay repositorio)
pub fn actualizacion_configurada(cfg: &Settings) -> (b: bool)
    ensures
        b == (recortado(cfg@.github_repo).len() != 0),
{
    !repositorio(cfg).as_str().is_empty()
}

/// Cómo acabó una comprobación de actualizaciones pedida a mano.
pub enum Comprobacion {
    /// Había versión nueva: se descargó y se reinicia.
    Actualizada,
    /// Ya es la última versión.
    AlDia,
    /// No se pudo comprobar.
    Fallida,
}

/// Aviso para el bocadillo tras una comprobación pedida a mano (`None` si no hay
/// nada que decir porque la aplicación se reinicia).
pub fn aviso_comprobacion(c: Comprobacion) -> (a: Option<String>)
    ensures
        match c {
            Comprobacion::Actualizada => a is None,
            Comprobacion::AlDia => a matches Some(t) && t@ == "✅ Ya tienes la última versión"@,
            Comprobacion::Fallida => a matches Some(t) && t@ == "⚠️ No pude comprobar actualizaciones"@,
        },
{
    match c {
        Comprobacion::Actualizada => None,
        Comprobacion::AlDia => Some(String::from_str("✅ Ya tienes la última versión")),
        Comprobacion::Fallida => Some(String::from_str("⚠️ No pude comprobar actualizaciones")),
    }
}

/// Aviso cuando se pide comprobar y no hay repositorio configurado.
pub fn aviso_sin_configurar() -> (t: String)
    ensures
        t@ == "El auto-update no está configurado."@,
{
    String::from_str("El auto-update no está configurado.")
}

} // verus!
