# g3_ui

The plain-value logic behind a set of mobile-style UI components, written in
Verus and proved against its contracts.

- `src/` is the verified library: calendar dates and times of day
  (`datetime`), the calendar grid and its keyboard (`calendar`), date picker
  wheels (`date_picker`), the clock dial (`clock`), overlay queues, scroll
  locks and focus (`overlay_host`, `overlay`, `popover`), alert and action
  sheet answers (`alert`), accordion, radio, segment, select, stepper and
  reorder decisions, field descriptions and debouncing (`field`), the scripts
  components run in the page (`scripts`), and the names and classes the
  stylesheet reads.
- `tests/` runs the library on concrete values.
- `app/` holds what reads the system clock or computes with floating point:
  today's date, the dial's coordinates as floats, fractional grid widths,
  typing limits on numbers, and star ratings.
