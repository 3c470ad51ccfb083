# Joaquincillo — lógica verificada

Biblioteca de la mascota de escritorio Joaquincillo, escrita en Verus: las
decisiones de la aplicación con sus contratos demostrados, y la aplicación Tauri
alrededor, en Rust corriente.

- `src/texto.rs`: recorte de espacios (`trim`), subcadenas, números en decimal.
- `src/settings.rs`: ajustes de `config.json`, valores por defecto, qué
  integraciones están configuradas y la migración del token de Jira al llavero.
- `src/fecha.rs`: instantes y reloj del sistema, lectura y escritura de fechas
  con chrono y diferencia en minutos.
- `src/activity.rs`: ventana de un minuto de pulsaciones y estado "on fire".
- `src/jira.rs`: consulta, resumen de novedades y avisos de cada sondeo de Jira.
- `src/calendar.rs`: modo del calendario (sin `azure_client_id`, una reunión de
  prueba a los 20 s), próxima reunión (de Graph; también, como función de la
  biblioteca, del calendario de Windows), cuándo avisar y los pasos del inicio de
  sesión de Microsoft.
- `src/ventana.rs`: anclaje, tamaño y zona clicable de la ventana.
- `src/updater.rs`: configuración y avisos de la auto-actualización.
- `app/`: ventana, bandeja, hilos, HTTP, llavero, archivos y hook de teclado.
- `tests/`: pruebas sobre valores concretos.
