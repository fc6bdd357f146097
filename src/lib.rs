//! Named stopwatches and a compact, human-readable rendering of elapsed time.
mod clock;
mod display;
mod laws;
mod timer;

pub use clock::duration_nanos;
pub use display::{
    digit_char, digits_of, duration_text, format_duration, format_nanos, hundredths, rounded_div,
    NANOS_PER_MICRO, NANOS_PER_MILLI, NANOS_PER_SEC,
};
pub use timer::{
    elapsed_line, elapsed_text, label_or_empty, took, took_line, took_text, ltook, Timer,
};
pub use laws::{
    ends_with, has_no_point, is_digit, law_microseconds, law_milliseconds, law_nanoseconds,
    law_seconds_have_two_decimals,
};
