//! Ajustes de la mascota (los de `config.json`): valores por defecto, qué
//! integraciones están configuradas y la migración del token de Jira al llavero.

use vstd::prelude::*;
use crate::texto::{recortado, recortar_espacios, vacio_tras_recortar};

verus! {

/// Ajustes de la aplicación.
#[derive(Clone, Debug)]
pub struct Settings {
    /// Application (client) ID de la app registrada en Azure (Entra ID).
    /// Si está vacío, el calendario corre en modo simulación.
    pub azure_client_id: String,
    /// Tenant de Azure ("common" vale para la mayoría).
    pub azure_tenant: String,
    /// Pulsaciones por minuto a partir de las cuales se considera "on fire".
    pub on_fire_apm: u64,
    /// Minutos de antelación para avisar de una reunión.
    pub aviso_reunion_min: i64,
    /// Dominio del sitio de Jira, sin `https://`.
    pub jira_site: String,
    /// Email de la cuenta de Atlassian.
    pub jira_email: String,
    /// Token de API de Jira.
    pub jira_token: String,
    /// (Opcional) clave de un proyecto cuyas novedades también se avisan.
    pub jira_proyecto: String,
    /// Cada cuántos segundos sondear Jira.
    pub jira_intervalo_s: u64,
    /// Repositorio de GitHub para la auto-actualización; vacío = sin auto-update.
    pub github_repo: String,
}

/// Modelo matemático de los ajustes: los textos como secuencias de caracteres.
pub struct AjustesVista {
    pub azure_client_id: Seq<char>,
    pub azure_tenant: Seq<char>,
    pub on_fire_apm: u64,
    pub aviso_reunion_min: i64,
    pub jira_site: Seq<char>,
    pub jira_email: Seq<char>,
    pub jira_token: Seq<char>,
    pub jira_proyecto: Seq<char>,
    pub jira_intervalo_s: u64,
    pub github_repo: Seq<char>,
}

impl View for Settings {
    type V = AjustesVista;

    open spec fn view(&self) -> AjustesVista {
        AjustesVista {
            azure_client_id: self.azure_client_id@,
            azure_tenant: self.azure_tenant@,
            on_fire_apm: self.on_fire_apm,
            aviso_reunion_min: self.aviso_reunion_min,
            jira_site: self.jira_site@,
            jira_email: self.jira_email@,
            jira_token: self.jira_token@,
            jira_proyecto: self.jira_proyecto@,
            jira_intervalo_s: self.jira_intervalo_s,
            github_repo: self.github_repo@,
        }
    }
}

/// Tenant por defecto.
pub open spec fn tenant_inicial() -> Seq<char> {
    "common"@
}

/// Umbral de pulsaciones por minuto por defecto.
pub open spec fn apm_inicial() -> u64 {
    280
}

/// Antelación por defecto del aviso de reunión, en minutos.
pub open spec fn aviso_inicial() -> i64 {
    5
}

/// Intervalo de sondeo de Jira por defecto, en segundos.
pub open spec fn jira_intervalo_inicial() -> u64 {
    60
}

/// Repositorio de auto-actualización por defecto.
pub open spec fn repo_inicial() -> Seq<char> {
    "https://github.com/jgallegs/desktop-buddy"@
}

/// Los ajustes que se usan cuando no hay `config.json` (o no se puede leer).
pub open spec fn ajustes_por_defecto() -> AjustesVista {
    AjustesVista {
        azure_client_id: Seq::empty(),
        azure_tenant: tenant_inicial(),
        on_fire_apm: apm_inicial(),
        aviso_reunion_min: aviso_inicial(),
        jira_site: Seq::empty(),
        jira_email: Seq::empty(),
        jira_token: Seq::empty(),
        jira_proyecto: Seq::empty(),
        jira_intervalo_s: jira_intervalo_inicial(),
        github_repo: repo_inicial(),
    }
}

/// El calendario está configurado cuando hay un client id de Azure que no es solo espacios.
pub open spec fn calendario_listo(a: AjustesVista) -> bool {
    recortado(a.azure_client_id).len() != 0
}

/// Jira está configurado cuando sitio, email y token tienen algo más que espacios.
pub open spec fn jira_listo(a: AjustesVista) -> bool {
    &&& recortado(a.jira_site).len() != 0
    &&& recortado(a.jira_email).len() != 0
    &&& recortado(a.jira_token).len() != 0
}

/// Los mismos ajustes con otro token de Jira.
pub open spec fn con_token(a: AjustesVista, token: Seq<char>) -> AjustesVista {
    AjustesVista { jira_token: token, ..a }
}

pub fn tenant_por_defecto() -> (r: String)
    ensures
        r@ == tenant_inicial(),
{
    String::from_str("common")
}

pub fn apm_por_defecto() -> (r: u64)
    ensures
        r == apm_inicial(),
{
    280
}

pub fn aviso_por_defecto() -> (r: i64)
    ensures
        r == aviso_inicial(),
{
    5
}

pub fn jira_intervalo_por_defecto() -> (r: u64)
    ensures
        r == jira_intervalo_inicial(),
{
    60
}

pub fn repo_por_defecto() -> (r: String)
    ensures
        r@ == repo_inicial(),
{
    String::from_str("https://github.com/jgallegs/desktop-buddy")
}

impl Default for Settings {
    fn default() -> (s: Self)
        ensures
            s@ == ajustes_por_defecto(),
    {
        Settings {
            azure_client_id: String::new(),
            azure_tenant: tenant_por_defecto(),
            on_fire_apm: apm_por_defecto(),
            aviso_reunion_min: aviso_por_defecto(),
            jira_site: String::new(),
            jira_email: String::new(),
            jira_token: String::new(),
            jira_proyecto: String::new(),
            jira_intervalo_s: jira_intervalo_por_defecto(),
            github_repo: repo_por_defecto(),
        }
    }
}

impl Settings {
    /// ¿Hay credenciales de Azure configuradas? Si no, el calendario va en simulación.
    pub fn calendario_configurado(&self) -> (b: bool)
        ensures
            b == calendario_listo(self@),
    {
        !vacio_tras_recortar(self.azure_client_id.as_str())
    }

    /// ¿Hay credenciales de Jira configuradas?
    pub fn jira_configurado(&self) -> (b: bool)
        ensures
            b == jira_listo(self@),
    {
        !vacio_tras_recortar(self.jira_site.as_str())
            && !vacio_tras_recortar(self.jira_email.as_str())
            && !vacio_tras_recortar(self.jira_token.as_str())
    }

    /// Copia campo a campo de los ajustes.
    pub fn copia(&self) -> (r: Settings)
        ensures
            r@ == self@,
    {
        Settings {
            azure_client_id: self.azure_client_id.clone(),
            azure_tenant: self.azure_tenant.clone(),
            on_fire_apm: self.on_fire_apm,
            aviso_reunion_min: self.aviso_reunion_min,
            jira_site: self.jira_site.clone(),
            jira_email: self.jira_email.clone(),
            jira_token: self.jira_token.clone(),
            jira_proyecto: self.jira_proyecto.clone(),
            jira_intervalo_s: self.jira_intervalo_s,
            github_repo: self.github_repo.clone(),
        }
    }
}

/// Resultado de cargar `config.json`: los ajustes efectivos y si hay que escribir
/// la plantilla por defecto en disco.
pub struct Carga {
    pub ajustes: Settings,
    pub escribir_plantilla: bool,
}

/// Decide qué ajustes usar a partir de lo leído de `config.json`: `leido` es
/// `Some` cuando el archivo existía y se pudo interpretar. Si no, se usan los
/// valores por defecto y se pide escribirlos como plantilla.
pub fn cargar_desde(leido: Option<Settings>) -> (c: Carga)
    ensures
        match leido {
            Some(s) => c.ajustes@ == s@ && !c.escribir_plantilla,
            None => c.ajustes@ == ajustes_por_defecto() && c.escribir_plantilla,
        },
{
    match leido {
        Some(s) => Carga { ajustes: s, escribir_plantilla: false },
        None => Carga { ajustes: Settings::default(), escribir_plantilla: true },
    }
}

/// El token de Jira que hay que llevar al llavero: el del archivo sin espacios a
/// los lados, si queda algo.
pub fn token_a_migrar(s: &Settings) -> (r: Option<String>)
    ensures
        recortado(s@.jira_token).len() == 0 ==> r is None,
        recortado(s@.jira_token).len() != 0 ==> r is Some && r->0@ == recortado(s@.jira_token),
{
    let t = recortar_espacios(s.jira_token.as_str());
    if t.as_str().is_empty() {
        None
    } else {
        Some(t)
    }
}

/// La copia de los ajustes que se reescribe en disco tras guardar el token en el
/// llavero: la misma, con el token vacío.
pub fn copia_sin_token(s: &Settings) -> (r: Settings)
    ensures
        r@ == con_token(s@, Seq::empty()),
{
    let mut disco = s.copia();
    disco.jira_token = String::new();
    disco
}

/// Deja en memoria el token efectivo leído del llavero, si lo hay.
pub fn aplicar_token_llavero(s: &mut Settings, del_llavero: Option<String>)
    ensures
        match del_llavero {
            Some(t) => final(s)@ == con_token(old(s)@, t@),
            None => final(s)@ == old(s)@,
        },
{
    if let Some(t) = del_llavero {
        s.jira_token = t;
    }
}

/// Con los ajustes por defecto el calendario va en simulación, Jira está sin
/// configurar y la auto-actualización apunta al repositorio oficial.
pub proof fn ley_ajustes_por_defecto()
    ensures
        !calendario_listo(ajustes_por_defecto()),
        !jira_listo(ajustes_por_defecto()),
        recortado(ajustes_por_defecto().github_repo).len() != 0,
{
    reveal_strlit("https://github.com/jgallegs/desktop-buddy");
    crate::texto::lema_recortado_vacio(Seq::<char>::empty());
    crate::texto::lema_recortado_vacio(repo_inicial());
    assert(!crate::texto::es_espacio(repo_inicial()[0]));
}

/// La copia que vuelve a disco solo pierde el token; lo demás queda igual.
pub proof fn ley_copia_sin_token(a: AjustesVista)
    ensures
        con_token(a, Seq::empty()).jira_token.len() == 0,
        con_token(con_token(a, Seq::empty()), a.jira_token) == a,
{
}

} // verus!
