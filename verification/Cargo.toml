[package]
name = "teleprompter"
version = "0.1.0"
edition = "2021"
publish = false

[dependencies]
yew = { version = "0.21", features = ["csr"] }
gloo = "0.11"
gloo-timers = "0.3"
js-sys = "0.3"
wasm-bindgen = "0.2"
wasm-bindgen-futures = "0.4"
web-sys = { version = "0.3", features = ["Blob", "BlobEvent", "HtmlElement", "HtmlMediaElement", "HtmlTextAreaElement", "HtmlVideoElement", "InputEvent", "MediaDevices", "MediaRecorder", "MediaStream", "MediaStreamConstraints", "Navigator", "SpeechRecognition", "SpeechRecognitionAlternative", "SpeechRecognitionEvent", "SpeechRecognitionResult", "SpeechRecognitionResultList", "Url", "Window", "console"] }
