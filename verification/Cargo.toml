[package]
name = "auto_tas"
version = "0.1.0"
edition = "2021"
publish = false

[dependencies]
egui-winit = "0.29"
egui-wgpu = "0.29"
tokio = { version = "1", features = ["rt-multi-thread", "macros"] }
env_logger = "0.11"
winapi = { version = "0.3", features = ["errhandlingapi", "handleapi", "libloaderapi", "memoryapi", "minwinbase", "minwindef", "processthreadsapi", "psapi", "tlhelp32", "winnt"] }
