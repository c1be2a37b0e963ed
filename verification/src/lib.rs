//! Lifecycle-checked handles over the objects of a native compositor
//! library.
//!
//! The native library allocates and frees its objects itself: outputs,
//! backends, renderers, shells. It announces on a signal of the object that
//! it is about to free it. A [`Handle`] listens to that announcement and
//! refuses every access afterwards, so that no reference outlives its
//! object.
//!
//! The crate decides and keeps the books; it does not call the native
//! library. A wrapper is handed the native operation as a closure, calls it
//! with the references that it has found alive, and turns its answer into a
//! result. Listeners are plain tokens: the caller creates the native record,
//! the wrapper says where it belongs, and the [`bridge`] records every
//! subscription, so that what a signal invokes and what is left after a
//! release can be proved.
//!
//! * [`error`]: the two kinds of failure.
//! * [`bridge`]: signals, listeners and the table of subscriptions.
//! * [`handle`]: [`Handle`], [`ChildHandle`] and the course of a handle's
//!   life.
//! * [`laws`]: what holds of handles and of the bridge over any course of
//!   events.
//! * One module for every kind of native object, each with the reference to
//!   the object and its wrapper.
//! * [`codegen`]: the scraper that reads the declarations of the native
//!   library off its headers.

pub mod allocator;
pub mod backend;
pub mod bridge;
pub mod codegen;
pub mod compositor;
pub mod data_device_manager;
pub mod error;
pub mod handle;
pub mod laws;
pub mod output;
pub mod output_layout;
pub mod renderer;
pub mod scene;
pub mod subcompositor;
pub mod xdg_shell;

pub use allocator::Allocator;
pub use backend::Backend;
pub use bridge::Bridge;
pub use compositor::Compositor;
pub use data_device_manager::DataDeviceManager;
pub use error::WlrError;
pub use handle::{ChildHandle, Destroyable, Handle};
pub use output::{Output, OutputMode};
pub use output_layout::OutputLayout;
pub use renderer::Renderer;
pub use scene::Scene;
pub use subcompositor::Subcompositor;
pub use xdg_shell::{XdgShell, XdgSurface, XdgSurfaceToplevel};
