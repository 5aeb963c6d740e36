[package]
name = "engine"
version = "0.1.0"
edition = "2021"
publish = false

[dependencies]
instant = "0.1"
wasm-bindgen = "0.2"
js-sys = "0.3"
web-sys = { version = "0.3", features = ["HtmlCanvasElement", "WebGl2RenderingContext", "WebGlRenderingContext", "WebGlUniformLocation", "WebGlProgram", "WebGlShader", "WebGlBuffer", "WebGlTexture", "Window", "Document", "Element", "HtmlElement", "Node", "CssStyleDeclaration"] }
winit = { version = "0.22", features = ["web-sys"] }
imgui = "0.4"
imgui-winit-support = "0.4"
glow = "0.4"
flume = "0.10"
futures-task = "0.3"
log = "0.4"
console_log = "0.2"
console_error_panic_hook = "0.1"
