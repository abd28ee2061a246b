# nidus

An e-paper weather station for the Raspberry Pi: a Waveshare 4.2 inch panel
shows a four-day temperature graph, the date and time and the readings of a
BME680 sensor; with `--epd2in9` a 2.9 inch panel, turned by 90 degrees,
shows the date, time and readings. Status, errors and readings go to
InfluxDB. `--simulator` shows the 4.2 inch layout in a desktop window.

- `src/` is the verified library (Verus). It decides what is drawn and what
  is reported: drawings are collected on a `Frame`, reports are built as
  `InfluxPoint`s. `graphics` holds the drawing model, `panel` the panel
  sizes, `format` integer formatting, `clock` the date and time block,
  `sensor` the readings block, `forecast` the temperature graph and
  `report` the database points and messages.
- `app/` is the program: it sets up the hardware, reads the clock, the
  sensor and the forecast service, paints frames with embedded-graphics and
  sends the points. Floating-point work (sensor readings, forecast minima
  and maxima, their labels) stays there.
- `tests/` runs the library on concrete values.
