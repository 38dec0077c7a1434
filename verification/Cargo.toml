[package]
name = "tile_atlas"
version = "0.1.0"
edition = "2021"
publish = false

[dependencies]
bevy = "0.5"
bevy_ecs_tilemap = "0.4"
env_logger = "0.10"
log = "0.4"
