# xous_services

Verified decision logic of Xous services, with Verus proofs:

- `endpoint_alloc`: first-fit allocator of the USB controller's memory
  (16-byte aligned, non-overlapping regions).
- `keymap`: characters to USB HID key presses for US101 and Dvorak hosts.
- `spinor_write`: region-write steps of the SPINOR flash server, the cut of a
  write into page programs, and the FIFO words of a page.
- `spinor_access`: SoC token, exclusive lock and suspend lock of the flash
  server, and the write authorization.
- `usb_device`: SoC version gate, U2F packet routing, debug-port status.
- `websocket_api`: the websocket service's opcodes and errors.

`app/` holds the service loops (Xous IPC, hardware registers) that drive the
library.
