//! Driver core for an addressable light-panel array: the panel layout model,
//! the binary streaming-protocol frame encoder, and the streaming-loop state
//! machine. Network transport and JSON mapping live outside this crate.

pub mod device;
pub mod error;
pub mod frame;
pub mod layout;
pub mod stream;

pub use device::Nanoleaf;
pub use error::NanoleafError;
pub use frame::Frame;
pub use frame::PanelState;
pub use layout::Layout;
pub use layout::Position;
pub use layout::RawPanel;
pub use stream::StreamPhase;
pub use stream::StreamSession;
