//! Rendering and scheduling of time-based lighting animations on a fixed
//! array of addressable LEDs laid out along a circuit.

pub mod animation;
pub mod circuit;
pub mod data_frame;
pub mod driver_info;
pub mod geometry;
pub mod hd108;
pub mod led;
pub mod zandvoort;

pub use animation::{
    scale_color, update_overtake_duel, Animation, AnimationQueue, Animations, CircuitPulse,
    DutchFlag, GrowingTrail, LightningSprint, OvertakeDuel, PrecomputedData, SectorFrames,
    ShowSectors, StaticColor, MAX_FRAMES, QUEUE_CAPACITY,
};
pub use circuit::Circuit;
pub use data_frame::{DriverData, UpdateFrame, NUM_DRIVERS};
pub use driver_info::{drivers, DriverInfo};
pub use geometry::{
    calculate_center, calculate_center_middle, max_distance_from_center, Point, Sector,
};
pub use hd108::{required_buffer_size, LedUpdate, HD108};
pub use led::{Color, LedStateBuffer, Priority};
pub use zandvoort::{led_positions_sorted, Zandvoort, LED_COUNT};
