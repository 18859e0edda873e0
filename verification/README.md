# mymodbus

A monitor for a solar inverter that speaks Modbus RTU over a serial line.
It polls a few registers once a minute, keeps a rolling history in memory
and in append-only sample files, and serves register values and the history
as JSON over HTTP.

The library under `src/` is verified with Verus; every public function
states what it returns in its contract:

- `frame`: the Modbus RTU request and response frames, the CRC, and the
  decoding of register values.
- `reader`: when a response frame read from the line is complete.
- `mock`: an in-memory slave that answers read requests from a register map.
- `registers`: the register table and how each register is read.
- `config`: the `key=value` configuration file.
- `history`, `energy`, `latest`: the in-memory caches.
- `persistence`: the binary format and names of the sample files.
- `http`, `report`: request routing, query parameters, and the replies.
- `poller`: the minute-aligned poll timing.
- `text`, `number`: the string and number helpers the above are built on.

Readings are doubles; the library keeps them as their IEEE-754 bit patterns
and leaves averaging, subtracting and formatting them to the program.

`app/` is the program around the library: the serial port, the sockets,
the files, the threads and the signals. `tests/` exercises the library.
