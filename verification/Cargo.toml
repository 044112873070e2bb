[package]
name = "browser_video_capture"
version = "0.1.0"
edition = "2021"
publish = false

[dependencies]
image = { version = "*", default-features = false }
js-sys = "*"
web-sys = { version = "*", features = [
    "HtmlVideoElement",
    "HtmlCanvasElement",
    "OffscreenCanvas",
    "CanvasRenderingContext2d",
    "OffscreenCanvasRenderingContext2d",
    "WebGlRenderingContext",
    "WebGl2RenderingContext",
    "WebGlBuffer",
    "WebGlProgram",
    "WebGlShader",
    "WebGlTexture",
    "WebGlUniformLocation",
    "ImageData",
] }
