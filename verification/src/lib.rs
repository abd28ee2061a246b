//! Layout and reporting logic of an e-paper weather station.
//!
//! The station shows the time, the readings of its environment sensor and a
//! temperature forecast on a Waveshare e-paper panel, and reports its status
//! to an InfluxDB database. This crate computes what is drawn and what is
//! reported: drawings are collected on a [`Frame`], reports are built as
//! [`InfluxPoint`]s. The program around it reads the clock, the sensor and
//! the forecast service, renders frames on the panel and sends the points.

pub mod clock;
pub mod forecast;
pub mod format;
pub mod graphics;
pub mod panel;
pub mod report;
pub mod sensor;

pub use clock::{daystr, time, LocalTime, Weekday};
pub use forecast::{day_label, forecast_days, forecast_fits, grid_temps, pos_x, scale, tmp_graph_height, weather_forecast, Range};
pub use graphics::{
    draw_text, rectangle, style_def, text_12x16, text_24x32, text_6x12, text_6x8, text_8x16,
    Color, Drawing, Font, Frame, Line, Point, PrimitiveStyle, Rectangle, StyledLine,
    StyledRectangle, Text, TextStyle,
};
pub use panel::{height, width, Panel};
pub use report::{err_influx, error, status_influx, InfluxPoint, Station, Status};
pub use sensor::{draw_sensor, readings_block};
