//! Colour generation and duty-cycle scheduling for an RGB LED driven by
//! three PWM channels: a hue that advances once per tick is mapped to
//! red, green and blue intensities, rescaled to the timer's duty range,
//! and a slower heartbeat is derived from a tick counter.

pub mod color;
pub mod scheduler;
