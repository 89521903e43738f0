[package]
name = "shader_pipeline"
version = "0.1.0"
edition = "2021"
publish = false

[dependencies]
gl = "*"
sdl2 = "*"
imgui = "*"
imgui-sdl2 = "*"
imgui-opengl-renderer = "*"
nalgebra-glm = "*"
