[package]
name = "frameloop"
version = "0.1.0"
edition = "2021"
publish = false

[dependencies]
env_logger = "*"
glfw = "=0.63.0"
glm = "=0.3.0"
inline-spirv = "=0.2.1"
log = "*"
memoffset = "*"
vk-sys = "=0.5.3"
vulkanic = "=0.1.3"
