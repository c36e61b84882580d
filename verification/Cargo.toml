[package]
name = "anti_window_snap"
version = "0.1.0"
edition = "2021"
publish = false

[dependencies]
image = { version = "=0.25.10", default-features = false, features = ["png"] }
windows = { version = "=0.58.0", features = ["Win32_Foundation", "Win32_Security", "Win32_Graphics_Gdi", "Win32_System_LibraryLoader", "Win32_UI_WindowsAndMessaging", "Win32_System_Diagnostics_Debug", "Win32_System_Diagnostics_ToolHelp", "Win32_System_Memory", "Win32_System_Threading", "Win32_UI_Accessibility"] }
fltk = "=1.5.23"
dashmap = "=6.2.1"
once_cell = "=1.21.4"
scopeguard = "=1.2.0"
