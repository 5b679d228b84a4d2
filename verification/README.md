# wgpu_gui_bridge

Brings web content and native GPU frames into host applications that draw with
`wgpu`. A frame that was rendered elsewhere (by Servo through GL, by a Metal or
Direct3D 12 producer, or by a system webview that is captured on Windows) is
imported into a texture of the host's device, and where that is not possible the
host learns which other surface it can use.

The library under `src/` holds the decisions, written and proved in Verus. The
program under `app/` makes the GPU, COM and windowing calls, and feeds their
results back in.

## Layout

| Module | What it decides |
| --- | --- |
| `interop`, `sync`, `error`, `platform`, `texture`, `geometry` | Which backend a device has, what it can import, and how a frame becomes a texture |
| `surfman_gl`, `servo_adapter` | How a Servo surface reaches the importer, and what happens to it when that fails |
| `web_surface` | What a system webview can offer a host |
| `webkitgtk_producer`, `wkwebview_producer` | The producers whose capture does not exist yet |
| `platform_call` | Platform calls in their order, and how each failure is reported |
| `windows_capture` | Shared textures, capture of windows, and the way of their handles |
| `webview2_composition_producer`, `webview2_navigation`, `webview2_acquisition`, `webview2_script` | The WebView2 producer: setting it up, navigating, resizing, and acquiring frames |
| `readback`, `render_plan` | Pixel layout and checks, surfaces, pipelines and uploads |
| `servo_demo`, `wry_demo`, `windows_probe` | How the demos react to their windows, their arguments and the producer |
| `text` | Text that error messages are made of |

## What is trusted

* `wgpu::Device`, `wgpu::Queue`, `wgpu::Texture`, `surfman::Error` and
  `std::path::PathBuf` are carried through unread. A clone of a device or of a
  queue is taken to stand for the same one.
* `url::Url::parse`, `url::Url::from_file_path` and the way `Duration` is written
  out stand behind small wrappers; their contracts say what is taken for granted.

A synchronizer and the code that imports a GL framebuffer are supplied by the host;
what they may answer is a part of their traits, and the importer follows the answer.

Times are milliseconds, handles and addresses are integers with zero for null, and
single-precision offsets are carried as their bit patterns.

## Features of the program

The Servo demo needs the `servo` crate, and the child webview of the other demo
needs `wry`; both are switched on by features of the same names. The capture path
is built on Windows only.
