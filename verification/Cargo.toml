[package]
name = "live_lesson"
version = "0.1.0"
edition = "2021"
publish = false

[dependencies]
uuid = "1"
wasm-peers = "*"
yew = { version = "0.20", features = ["csr"] }
yew-router = "0.17"
yewdux = "0.9"
yew-agent = "0.2"
yew_icons = { version = "0.7", features = [
    "BootstrapCameraVideoOffFill",
    "BootstrapCameraVideoFill",
    "BootstrapMicMuteFill",
    "BootstrapMicFill",
    "FontAwesomeSolidHorseHead",
    "FontAwesomeSolidCode",
    "BootstrapFileEarmarkText",
    "HeroiconsSolidPaintBrush",
    "BootstrapPeopleFill",
    "BootstrapPeople",
] }
monaco = { version = "0.4", features = ["yew-components"] }
wasm-bindgen = "0.2"
wasm-bindgen-futures = "0.4"
js-sys = "0.3"
gloo-timers = "0.2"
log = "0.4"
wasm-logger = "0.2"
anyhow = "1"
serde = { version = "1", features = ["derive"] }
serde_json = "1"
web-sys = { version = "0.3", features = [
    "Window",
    "Document",
    "Element",
    "HtmlElement",
    "HtmlTextAreaElement",
    "HtmlInputElement",
    "HtmlVideoElement",
    "HtmlCanvasElement",
    "HtmlImageElement",
    "CanvasRenderingContext2d",
    "UrlSearchParams",
    "Location",
    "MouseEvent",
    "InputEvent",
    "Event",
    "EventTarget",
    "Node",
    "MediaStream",
    "MediaStreamTrack",
    "MediaDevices",
    "Navigator",
    "MediaStreamConstraints",
    "MediaTrackConstraints",
    "MediaTrackSettings",
    "AudioContext",
    "AudioContextOptions",
    "BaseAudioContext",
    "GainNode",
    "AudioNode",
    "AudioParam",
    "AudioDestinationNode",
    "MediaStreamAudioSourceNode",
    "AudioDecoder",
    "AudioDecoderInit",
    "AudioDecoderConfig",
    "AudioEncoder",
    "AudioEncoderInit",
    "AudioEncoderConfig",
    "AudioData",
    "EncodedAudioChunk",
    "EncodedAudioChunkInit",
    "EncodedAudioChunkType",
    "VideoDecoder",
    "VideoDecoderInit",
    "VideoDecoderConfig",
    "VideoEncoder",
    "VideoEncoderInit",
    "VideoEncoderConfig",
    "VideoEncoderEncodeOptions",
    "VideoFrame",
    "EncodedVideoChunk",
    "EncodedVideoChunkInit",
    "EncodedVideoChunkType",
    "CodecState",
    "LatencyMode",
    "MediaStreamTrackGenerator",
    "MediaStreamTrackGeneratorInit",
    "MediaStreamTrackProcessor",
    "MediaStreamTrackProcessorInit",
    "ReadableStream",
    "ReadableStreamDefaultReader",
    "WritableStream",
    "WritableStreamDefaultWriter",
    "AudioTrack",
    "VideoTrack",
] }
