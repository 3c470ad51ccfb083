use joaquincillo::settings::{
    apm_por_defecto, aplicar_token_llavero, aviso_por_defecto, cargar_desde, copia_sin_token,
    jira_intervalo_por_defecto, repo_por_defecto, tenant_por_defecto, token_a_migrar, Settings,
};
use joaquincillo::texto::{
    contiene_texto, en_decimal, primeros, quitar_final_repetido, recortar_espacios, vacio_tras_recortar,
};
use joaquincillo::updater::{actualizacion_configurada, aviso_comprobacion, aviso_sin_configurar, repositorio, Comprobacion};

fn ajustes_jira(site: &str, email: &str, token: &str) -> Settings {
    let mut s = Settings::default();
    s.jira_site = site.to_string();
    s.jira_email = email.to_string();
    s.jira_token = token.to_string();
    s
}

#[test]
fn valores_por_defecto() {
    let s = Settings::default();
    assert_eq!(s.azure_client_id, "");
    assert_eq!(s.azure_tenant, "common");
    assert_eq!(s.on_fire_apm, 280);
    assert_eq!(s.aviso_reunion_min, 5);
    assert_eq!(s.jira_site, "");
    assert_eq!(s.jira_email, "");
    assert_eq!(s.jira_token, "");
    assert_eq!(s.jira_proyecto, "");
    assert_eq!(s.jira_intervalo_s, 60);
    assert_eq!(s.github_repo, "https://github.com/jgallegs/desktop-buddy");
    assert_eq!(tenant_por_defecto(), "common");
    assert_eq!(apm_por_defecto(), 280);
    assert_eq!(aviso_por_defecto(), 5);
    assert_eq!(jira_intervalo_por_defecto(), 60);
    assert_eq!(repo_por_defecto(), "https://github.com/jgallegs/desktop-buddy");
}

#[test]
fn por_defecto_sin_integraciones() {
    let s = Settings::default();
    assert!(!s.calendario_configurado());
    assert!(!s.jira_configurado());
    assert!(actualizacion_configurada(&s));
}

#[test]
fn calendario_configurado_ignora_espacios() {
    let mut s = Settings::default();
    s.azure_client_id = " \t\n ".to_string();
    assert!(!s.calendario_configurado());
    s.azure_client_id = "\u{3000}\u{a0}\u{2009}".to_string();
    assert!(!s.calendario_configurado());
    s.azure_client_id = "  abc-123 ".to_string();
    assert!(s.calendario_configurado());
}

#[test]
fn jira_configurado_pide_los_tres() {
    assert!(ajustes_jira("cexpress.atlassian.net", "yo@x.es", "tok").jira_configurado());
    assert!(!ajustes_jira("", "yo@x.es", "tok").jira_configurado());
    assert!(!ajustes_jira("sitio", "   ", "tok").jira_configurado());
    assert!(!ajustes_jira("sitio", "yo@x.es", "\t").jira_configurado());
}

#[test]
fn cargar_usa_lo_leido_o_la_plantilla() {
    let mut leido = Settings::default();
    leido.on_fire_apm = 100;
    let c = cargar_desde(Some(leido));
    assert_eq!(c.ajustes.on_fire_apm, 100);
    assert!(!c.escribir_plantilla);
    let c = cargar_desde(None);
    assert_eq!(c.ajustes.on_fire_apm, 280);
    assert_eq!(c.ajustes.azure_tenant, "common");
    assert!(c.escribir_plantilla);
}

#[test]
fn migracion_del_token() {
    let s = ajustes_jira("sitio", "yo@x.es", "  secreto \n");
    let t = token_a_migrar(&s);
    assert_eq!(t.as_deref(), Some("secreto"));
    let disco = copia_sin_token(&s);
    assert_eq!(disco.jira_token, "");
    assert_eq!(disco.jira_site, "sitio");
    assert_eq!(disco.jira_email, "yo@x.es");
    assert_eq!(token_a_migrar(&ajustes_jira("a", "b", "   ")), None);

    let mut memoria = disco;
    aplicar_token_llavero(&mut memoria, Some("del-llavero".to_string()));
    assert_eq!(memoria.jira_token, "del-llavero");
    aplicar_token_llavero(&mut memoria, None);
    assert_eq!(memoria.jira_token, "del-llavero");
}

#[test]
fn recorte_de_espacios() {
    assert_eq!(recortar_espacios(" \t hola mundo \n"), "hola mundo");
    assert_eq!(recortar_espacios("\u{3000}x\u{a0}"), "x");
    assert_eq!(recortar_espacios("   "), "");
    assert_eq!(recortar_espacios(""), "");
    assert_eq!(recortar_espacios("a b"), "a b");
    assert!(vacio_tras_recortar("\u{85}\u{2028}"));
    assert!(!vacio_tras_recortar(" . "));
    // Igual que str::trim en una muestra de textos.
    for t in ["  x  ", "\u{200b}x", "\u{1680}y\u{205f}", "ñ ", "\r\n"] {
        assert_eq!(recortar_espacios(t), t.trim());
    }
}

#[test]
fn texto_auxiliar() {
    assert!(contiene_texto("el accountId 557058:abc aparece", "557058:abc"));
    assert!(!contiene_texto("nada", "557058:abc"));
    assert!(contiene_texto("algo", ""));
    assert!(!contiene_texto("", "x"));
    assert_eq!(en_decimal(0), "0");
    assert_eq!(en_decimal(404), "404");
    assert_eq!(en_decimal(u64::MAX), u64::MAX.to_string());
    assert_eq!(primeros("añoñeño", 3), "año");
    assert_eq!(primeros("ab", 10), "ab");
    assert_eq!(quitar_final_repetido("cexpress.atlassian.net//", '/'), "cexpress.atlassian.net");
    assert_eq!(quitar_final_repetido("///", '/'), "");
}

#[test]
fn actualizaciones() {
    let mut s = Settings::default();
    s.github_repo = "  https://github.com/yo/repo  ".to_string();
    assert_eq!(repositorio(&s), "https://github.com/yo/repo");
    assert!(actualizacion_configurada(&s));
    s.github_repo = " ".to_string();
    assert!(!actualizacion_configurada(&s));
    assert_eq!(aviso_comprobacion(Comprobacion::Actualizada), None);
    assert_eq!(aviso_comprobacion(Comprobacion::AlDia).as_deref(), Some("✅ Ya tienes la última versión"));
    assert_eq!(aviso_comprobacion(Comprobacion::Fallida).as_deref(), Some("⚠️ No pude comprobar actualizaciones"));
    assert_eq!(aviso_sin_configurar(), "El auto-update no está configurado.");
}
