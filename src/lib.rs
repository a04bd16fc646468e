//! The device-connection core of a HID console: which devices are offered,
//! the reader loop's decisions, and the single open connection.

pub mod catalog;
pub mod reader;
pub mod session;

pub use catalog::{DeviceInfo, DeviceInfoView, HidDescriptor, HidDescriptorView, list_devices};
pub use reader::{READ_TIMEOUT_MS, ReaderAction, ReaderLoop};
pub use session::{ConnectionSlot, SlotState, nul_terminated_path, write_outcome};
