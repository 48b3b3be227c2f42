# weather_tui

A terminal weather scene: clouds drawn with braille dots, rain that falls and
drifts with the wind, fed by the Open-Meteo current-weather API.

- `src/` is the verified library: braille cell encoding (`braille`), the weather
  model's discrete classifications (`weather`), the view's counter, rain hash,
  dithering levels and dot placement (`view`), the decision taken on each
  terminal poll (`input`), and the provider's errors and reply checks (`provider`).
- `app/` is the program around it: argument parsing, HTTP and JSON, the terminal,
  and the floating-point world (cloud shapes, densities, positions).
- `tests/` exercises the library on concrete values.
