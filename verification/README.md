# stm32f1_demo

Demo programs for the STM32F103 ("blue pill"): two blinkies, an infrared
beam-break counter driven by an external interrupt, an ADC channel scan read
by DMA, and a screen that shows where variables and registers live in memory.

- `src/` is the verified library: what each program decides between its
  hardware accesses (LED commands and their waits, the interrupt handler's
  counting, the OLED screen layouts, the ADC scan sequence, clock requests
  and register addresses), with contracts and laws checked by Verus.
- `app/` is the firmware around it: peripheral setup, register and pin
  accesses, delays, the interrupt handler, and the OLED driver calls.
- `tests/` runs the library on concrete values.
