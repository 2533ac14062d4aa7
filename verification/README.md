# frtosrs

Firmware for the MatekH743 board on FreeRTOS: a blink task toggles the
green LED and reports its free stack through a queue; a console task prints
those reports, once a second, over the USB serial port.

- `src/` is the verified library: the LED model (`led`), blocking UART
  transfer decisions (`serial`), USB write progress (`usb`), heap accounting
  (`heap`), decimal rendering (`decimal`), the busy-wait delay (`delay`) and
  the tasks' reports and scheduling decisions (`tasks`).
- `app/` is the firmware around it: board bring-up, pins, UART, USB, the
  RTOS tasks and hooks. It drives the hardware with what the library decides.
- `tests/` exercises the library on concrete values.
