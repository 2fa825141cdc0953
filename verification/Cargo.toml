[package]
name = "andromeda_core"
version = "0.1.0"
edition = "2021"
publish = false

[dependencies]
anymap = "=0.12.1"
# Nothing here calls icu_calendar. nova_vm brings temporal_rs, which builds
# against icu_calendar 2.1 and not against the later 2.x that would be picked.
icu_calendar = "=2.1.1"
nova_vm = { version = "=1.0.0", features = ["typescript"] }
# The engine owns its allocator and hands no syntax tree to the host, so the two
# oxc crates are held only to the versions that the engine is built with.
oxc_allocator = "=0.116.0"
oxc_ast = "=0.116.0"
tokio = { version = "=1.54.1", features = ["rt", "rt-multi-thread", "time"] }
