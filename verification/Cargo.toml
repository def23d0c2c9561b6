[package]
name = "eth3rn5l_portfolio"
version = "0.1.0"
edition = "2021"
publish = false

[dependencies]
wasm-bindgen = "0.2"
js-sys = "0.3"
web-sys = { version = "0.3", features = ["Window", "Document", "Element", "HtmlElement", "HtmlHeadElement", "HtmlCanvasElement", "Node", "EventTarget", "Event", "UiEvent", "MouseEvent", "WebGl2RenderingContext", "WebGlProgram", "WebGlShader", "WebGlBuffer", "WebGlTexture", "WebGlFramebuffer", "WebGlUniformLocation"] }
