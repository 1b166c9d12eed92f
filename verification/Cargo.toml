[package]
name = "ravenscar_app"
version = "0.1.0"
edition = "2021"
publish = false

[dependencies]
rtic-monotonics = { version = "=2.2.1", features = ["cortex-m-systick", "systick-64bit"] }
rtic-time = "=2.0.1"
rtic-sync = "=1.6.0"
rtic = { version = "=2.4.0", features = ["thumbv7-backend"] }
heapless = "=0.8.0"
libm = "=0.2.16"
futures = { version = "=0.3.34", default-features = false, features = ["async-await"] }
defmt = "=0.3.101"
defmt-brtt = "=0.1.2"
panic-probe = { version = "=0.3.2", features = ["print-defmt"] }
cortex-m = { version = "=0.7.10", features = ["critical-section-single-core"] }
stm32f3xx-hal = { version = "=0.10.0", features = ["stm32f303xc", "rt"] }
