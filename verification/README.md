# x52

Control and input handling for the Saitek/MadCatz X52 and X52 Pro flight
control system (HOTAS), with the decoding and encoding logic proved in Verus.

* `src/` is the verified library:
  * `device` — vendor/product ids and the device variant;
  * `hid` — axes, buttons, hat and mode, and the parser of the 14-byte (X52)
    and 15-byte (X52 Pro) HID input reports;
  * `usb` — the vendor control requests for MFD text, LEDs, clocks, date,
    brightness, shift and blink; argument checks; the batch builder; the
    retry decision.
* `app/` holds the asynchronous device I/O (`async-hid` for input, `nusb`
  for output) around the library.
* `tests/` exercises the library on concrete reports and commands.
