//! A register-oriented protocol codec for moteus motor controllers on a
//! CAN-FD bus: typed register values are packed into compact subframes,
//! gathered into frames, and parsed back out of device responses.

pub mod builder;
pub mod bus;
pub mod bytes;
pub mod error;
pub mod frame;
pub mod protocol;
pub mod registers;
pub mod response;
pub mod subframe;

pub use builder::{Frame, FrameBuilder};
pub use bus::{CanFdFrame, Controller, Transport};
pub use error::{Error, FrameError, FrameParseError, RegisterError};
pub use protocol::Resolution;
pub use response::ResponseFrame;
