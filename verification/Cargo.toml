[package]
name = "terrain"
version = "0.1.0"
edition = "2021"
publish = false

[dependencies]
rand = "0.7"
cgmath = "0.17"
image = "0.22"
sdl2 = "0.34"
tobj = "0.1"
emscripten_main_loop = "0.1"
gl = "0.14"
