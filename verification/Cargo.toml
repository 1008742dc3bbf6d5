[package]
name = "dal_spirits"
version = "0.1.0"
edition = "2021"
publish = false

[dependencies]
regex = "=1.13.1"
console_error_panic_hook = "0.1"
constcat = "*"
either = { version = "1", features = ["serde"] }
js-sys = "0.3"
serde = { version = "1", features = ["derive"] }
sycamore = { version = "0.8", features = ["suspense"] }
wasm-bindgen = "0.2"
wasm-bindgen-futures = "0.4"
web-sys = { version = "0.3", features = ["Event", "EventTarget", "Headers", "History", "HtmlInputElement", "Location", "Navigator", "Performance", "PerformanceEntry", "PerformanceMeasure", "Request", "RequestInit", "Response", "ServiceWorker", "ServiceWorkerContainer", "ServiceWorkerRegistration", "Window", "console"] }
wee_alloc = "0.4"
