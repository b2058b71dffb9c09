# tomat

A Pomodoro timer. The library (`src/`) holds its logic, verified with Verus:

- `preferences`: session lengths, cycle length, auto start, alert sound.
- `screen::timer`: the timer as a state machine; `Timer::update` maps a state,
  a message, the preferences and the current moment to the next state, an
  action and the side effects to perform (notification, alert sound).
- `screen::settings`: the settings form and its number fields.
- `tomat`: the application's screens; the timer is parked while the settings
  form is open.
- `text`: decimal numbers, the "hh:mm:ss" clock and number parsing.
- `time`: durations and moments as nanoseconds.

`app/` is the iced desktop program around it: widgets, clock, sound (rodio)
and desktop notifications (notify-rust). It embeds fonts, icons and the alert
sound from `assets/`.
