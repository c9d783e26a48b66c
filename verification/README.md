# mqtt_device

A device module that reads a light, temperature and humidity sensor over MQTT. The library in `src/`
is written in Verus: each function states what it returns or changes, and Verus proves it.

- `conn`: the connection to the broker: its parameters, its configuration, the client's options.
- `device`: the device configuration: topic and quality of service.
- `store`: the stored form of both configurations, and reading it back.
- `sensor`: what the sensor measures, and the messages that report a measurement.
- `msg`: the messages of the device, found in the bytes that arrive and taken apart.
- `module`: what the module holds between calls, and what each call makes of it.
- `text`, `error`: text and integers, errors and status bytes.

`app/` is the module as a host sees it: C functions around the library, with its files, its
connection and its thread.

What is taken on trust is marked `external_body`: the calls of `std::str::from_utf8` and into the
crates `regex`, `bincode` and `rumqttc`, each with a comment that says what is believed of it.
