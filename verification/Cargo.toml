[package]
name = "joaquincillo"
version = "0.1.0"
edition = "2021"
publish = false

[dependencies]
chrono = { version = "=0.4.45", default-features = false, features = ["clock", "std"] }
serde = { version = "=1.0.229", features = ["derive"] }
serde_json = "=1.0.154"
keyring = "=3.6.3"
reqwest = { version = "=0.12.28", default-features = false, features = ["json", "rustls-tls"] }
tokio = { version = "=1.54.1", features = ["rt", "time"] }
velopack = "=1.2.161"
windows = { version = "=0.62.2", features = ["ApplicationModel_Appointments", "Foundation", "Foundation_Collections", "Win32_Foundation", "Win32_System_Com", "Win32_UI_WindowsAndMessaging"] }
