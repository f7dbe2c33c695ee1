//! Classic CAN frames and filters, and a sequencer for the flashing protocol
//! of a CAN bootloader, with their behaviour stated as contracts.

pub mod bootloader;
pub mod error;
pub mod filter;
pub mod frame;
pub mod transport;

pub use error::Error;
pub use filter::{Filter, FilterPlan, FilterView};
pub use frame::{Frame, FrameView, Id, WireMsg};
