//! Model of a GPU-drawn desktop wallpaper: the windowing-system setup plan for
//! an override-redirect, bottom-stacked window, the GPU bring-up state machine,
//! and the per-frame command plan. An unverified shell executes these plans
//! against the real display server and GPU.

pub mod frame;
pub mod gpu;
pub mod screen;
pub mod surface;
pub mod xproto;
