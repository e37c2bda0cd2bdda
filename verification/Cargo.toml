[package]
name = "halloween"
version = "0.1.0"
edition = "2021"
publish = false

[dependencies]
regex = "1"
yew = { version = "0.21", features = ["csr"] }
wasm-bindgen = "0.2"
js-sys = "0.3"
web-sys = { version = "0.3", features = ["Window", "Navigator", "Performance", "HtmlCanvasElement", "HtmlImageElement", "WebGlRenderingContext", "WebGlTexture", "WebGlFramebuffer", "WebGlBuffer", "WebGlShader", "WebGlProgram", "WebGlUniformLocation"] }
