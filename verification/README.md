# hydroponic_node

Firmware of an ESP32-C3 hydroponic sensor node (temperature, water level, EC/pH)
that reports over MQTT.

- `src/` is the verified library (Verus): MQTT topic naming and message routing
  (`topics`), controller commands and the schedule part of the configuration
  (`models`), the main loop's event handling and reporting schedule (`schedule`),
  and the timing of the ultrasonic echo (`echo`).
- `app/` is the firmware around it: WiFi, SNTP, the MQTT client, the sensor drivers,
  JSON payloads, and the floating-point conversions (pH, EC, distance, ADC volts).
- `tests/` runs the library on concrete values.
