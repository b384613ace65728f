[package]
name = "flecs_registry"
version = "0.1.0"
edition = "2021"
publish = false

[dependencies]
hashbrown = "*"
flecs_ecs_sys = "*"
