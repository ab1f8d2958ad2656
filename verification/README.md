# egui_citro3d

Lets egui user interfaces run on the Nintendo 3DS.

- `src/` is the verified library (Verus): touch input to egui events
  (`input`), the replay of software-keyboard text into egui (`ime`), pixel
  data and texture-combiner set-ups (`texture`), and the map of live textures
  (`texmap`).
- `app/` is the 3DS side: it reads the hardware, opens the software keyboard,
  runs the egui context and drives the GPU through citro3d, asking the library
  for every decision.
- `tests/` exercises the library on concrete values.
