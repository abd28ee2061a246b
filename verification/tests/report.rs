use nidus::{draw_sensor, readings_block, err_influx, error, status_influx, Drawing, Font, Frame, Panel, Point, Station, Status};

fn station() -> Station {
    Station {
        location: "Kitchen".to_string(),
        sensor: "bme680".to_string(),
        display: "epd4in2".to_string(),
    }
}

fn pairs(v: &[(&str, &str)]) -> Vec<(String, String)> {
    v.iter().map(|(a, b)| (a.to_string(), b.to_string())).collect()
}

#[test]
fn status_names() {
    assert_eq!(Status::STARTUP.to_string(), "STARTUP");
    assert_eq!(Status::SHUTDOWN.to_string(), "SHUTDOWN");
}

#[test]
fn error_message() {
    assert_eq!(error("sensor reading", "bad data"), "Error in sensor reading: bad data");
    assert_eq!(error("", ""), "Error in : ");
}

#[test]
fn error_point() {
    let p = err_influx(&station(), "Error in x: y".to_string());
    assert_eq!(p.measurement, "error");
    assert_eq!(
        p.tags,
        pairs(&[("location", "Kitchen"), ("sensor", "bme680"), ("display", "epd4in2")])
    );
    assert_eq!(p.fields, pairs(&[("error", "Error in x: y")]));
}

#[test]
fn status_point_without_message() {
    let p = status_influx(&station(), Status::STARTUP, None);
    assert_eq!(p.measurement, "status");
    assert_eq!(
        p.tags,
        pairs(&[
            ("location", "Kitchen"),
            ("sensor", "bme680"),
            ("display", "epd4in2"),
            ("status", "STARTUP"),
        ])
    );
    assert_eq!(p.fields, pairs(&[("message", "")]));
}

#[test]
fn status_point_with_message() {
    let p = status_influx(&station(), Status::SHUTDOWN, Some("bye".to_string()));
    assert_eq!(p.tags[3], ("status".to_string(), "SHUTDOWN".to_string()));
    assert_eq!(p.fields, pairs(&[("message", "bye")]));
}

fn texts(frame: &Frame) -> Vec<(String, Point, Font)> {
    frame
        .drawings
        .iter()
        .map(|d| match d {
            Drawing::Text(t) => (t.text.clone(), t.top_left, t.style.font),
            other => panic!("expected a text, got {:?}", other),
        })
        .collect()
}

#[test]
fn readings_block_lists_the_units() {
    assert_eq!(readings_block(" 538.14", " 972.44", "  43.84"), " 538.14kOhm\n 972.44hPa\n  43.84%");
    assert_eq!(readings_block("", "", ""), "kOhm\nhPa\n%");
}

#[test]
fn sensor_on_the_large_panel() {
    let mut frame = Frame::new();
    draw_sensor(
        &mut frame,
        Panel::Epd4in2,
        &format!("{:5.1}", 15.7f32),
        &format!("{:7.2}", 43.84f32),
        &format!("{:7.2}", 972.44f32),
        &format!("{:7.2}", 538138u32 as f32 / 1000.0),
    );
    assert_eq!(
        texts(&frame),
        vec![
            (" 15.7°C".to_string(), Point { x: 0, y: 100 }, Font::Font24x32),
            (" 538.14kOhm\n 972.44hPa\n  43.84%".to_string(), Point { x: 0, y: 0 }, Font::Font8x16),
        ]
    );
}

#[test]
fn sensor_on_the_small_panel() {
    let mut frame = Frame::new();
    draw_sensor(&mut frame, Panel::Epd2in9, " 15.7", "h", "p", "g");
    assert_eq!(
        texts(&frame),
        vec![
            (" 15.7°".to_string(), Point { x: 0, y: 96 }, Font::Font24x32),
            ("gkOhm\nphPa\nh%".to_string(), Point { x: 0, y: 0 }, Font::Font8x16),
        ]
    );
}
