//! Board support logic for the Pimoroni Presto: the buzzer's notes, a text
//! cursor over a byte buffer, the front LED colours and the ST7701 display
//! controller.

pub mod audio;
pub mod io;
pub mod leds;
pub mod st7701;
