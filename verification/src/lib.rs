//! Verified decision logic of three Xous services: the SPINOR flash server
//! (access control, region writes, page programming plans), the USB device
//! server (endpoint memory allocation, U2F packet routing, key mappings) and
//! the websocket service's public interface.
pub mod endpoint_alloc;
pub mod keymap;
pub mod spinor_access;
pub mod spinor_write;
pub mod usb_device;
pub mod websocket_api;
