use timelapse_director::camera::calculate_cameras;
use timelapse_director::config::{Config, ConfigError};
use timelapse_director::event::Event;

fn cfg_half_tiles() -> Config {
    // 120 x 67.5 tiles expressed in half-tile units, follow threshold of
    // 20 tiles, zoom 1.0 in thousandths.
    Config { view_w: 240, view_h: 135, follow_threshold: 40, target_zoom: 1000 }
}

#[test]
fn scenario_two_clusters() {
    // Two events on the same point, then a far jump: the first two share
    // a track, the third starts a new one.
    let events = vec![
        Event::new(0, 0, 0),
        Event::new(1, 0, 0),
        Event::new(2, 2000, 2000),
    ];
    let cams = calculate_cameras(&events, &cfg_half_tiles()).unwrap();
    assert_eq!(cams.len(), 2);
    assert_eq!(cams[0].move_count(), 2);
    assert_eq!(cams[0].move_at(0).on_tick, 0);
    assert_eq!(cams[0].move_at(1).on_tick, 1);
    assert_eq!(cams[1].move_count(), 1);
    assert_eq!(cams[1].move_at(0).on_tick, 2);
    assert_eq!(cams[1].move_at(0).to.x, 2000);
    assert_eq!(cams[1].move_at(0).to.y, 2000);
}

#[test]
fn scenario_empty_events() {
    let events: Vec<Event> = Vec::new();
    let cams = calculate_cameras(&events, &cfg_half_tiles()).unwrap();
    assert!(cams.is_empty());
}

#[test]
fn scenario_single_event() {
    let events = vec![Event::new(5, 3, 4)];
    let cams = calculate_cameras(&events, &cfg_half_tiles()).unwrap();
    assert_eq!(cams.len(), 1);
    assert_eq!(cams[0].move_count(), 1);
    assert_eq!(cams[0].move_at(0).on_tick, 5);
    assert!(cams[0].position(4).is_none());
    let at5 = cams[0].position(5).unwrap();
    assert_eq!((at5.x, at5.y), (3, 4));
    let at100 = cams[0].position(100).unwrap();
    assert_eq!((at100.x, at100.y), (3, 4));
    // the waypoint's viewport is the configured rectangle on its point
    assert_eq!(at100.rect(), timelapse_director::geometry::viewport_rect(3, 4, 240, 135));
    assert_eq!(cams[0].rect_at(100), Some(at100.rect()));
}

#[test]
fn move_conservation_concrete() {
    let events = vec![
        Event::new(0, 0, 0),
        Event::new(1, 5000, 0),
        Event::new(1, 0, 5000),
        Event::new(3, 2, 2),
        Event::new(9, 5001, 1),
    ];
    let cams = calculate_cameras(&events, &cfg_half_tiles()).unwrap();
    let total: usize = cams.iter().map(|c| c.move_count()).sum();
    assert_eq!(total, events.len());
}

#[test]
fn track_count_monotonic_concrete() {
    let events = vec![
        Event::new(0, 0, 0),
        Event::new(1, 5000, 0),
        Event::new(2, 1, 1),
        Event::new(3, 10000, 10000),
        Event::new(4, 5001, 1),
    ];
    let cfg = cfg_half_tiles();
    let mut previous: usize = 0;
    for n in 0..=events.len() {
        let prefix: Vec<Event> = events[..n].to_vec();
        let cams = calculate_cameras(&prefix, &cfg).unwrap();
        assert!(cams.len() >= previous);
        assert!(cams.len() <= previous + 1);
        previous = cams.len();
    }
}

#[test]
fn threshold_boundary_joins() {
    // Viewport 10 x 10 around (0, 0) covers [-5, 5] on each axis; with
    // threshold 5 an event at x = 10 sits exactly on the boundary and
    // joins, while x = 11 lies strictly beyond and starts a new track.
    let cfg = Config { view_w: 10, view_h: 10, follow_threshold: 5, target_zoom: 0 };
    let joining = vec![Event::new(0, 0, 0), Event::new(1, 10, 0)];
    let cams = calculate_cameras(&joining, &cfg).unwrap();
    assert_eq!(cams.len(), 1);
    assert_eq!(cams[0].move_count(), 2);

    let splitting = vec![Event::new(0, 0, 0), Event::new(1, 11, 0)];
    let cams = calculate_cameras(&splitting, &cfg).unwrap();
    assert_eq!(cams.len(), 2);
}

#[test]
fn ties_keep_first_track() {
    // Two tracks whose viewports end up equally distant (195) from the
    // third event: the first-created track wins the tie.
    let cfg = Config { view_w: 10, view_h: 10, follow_threshold: 200, target_zoom: 0 };
    let events = vec![
        Event::new(0, -200, 0),
        Event::new(0, 200, 0),
        Event::new(1, 0, 0),
    ];
    let cams = calculate_cameras(&events, &cfg).unwrap();
    assert_eq!(cams.len(), 2);
    assert_eq!(cams[0].move_count(), 2);
    assert_eq!(cams[1].move_count(), 1);
}

#[test]
fn unborn_track_not_selectable() {
    // The second track is created at tick 2; an event at tick 1 there-
    // fore cannot join it even though it sits on the same point, and
    // the first track is beyond the threshold, so a third track forms.
    let cfg = Config { view_w: 10, view_h: 10, follow_threshold: 5, target_zoom: 0 };
    let events = vec![
        Event::new(0, 0, 0),
        Event::new(2, 1000, 1000),
    ];
    let cams = calculate_cameras(&events, &cfg).unwrap();
    assert_eq!(cams.len(), 2);
    // the second track does not exist at tick 1
    assert!(cams[1].position(1).is_none());
    assert!(cams[1].position(2).is_some());
}

#[test]
fn zoom_is_stamped_on_every_waypoint() {
    let mut cfg = cfg_half_tiles();
    cfg.target_zoom = 625;
    let events = vec![Event::new(0, 0, 0), Event::new(1, 9000, 9000)];
    let cams = calculate_cameras(&events, &cfg).unwrap();
    for c in &cams {
        for i in 0..c.move_count() {
            assert_eq!(c.move_at(i).to.zoom, 625);
        }
    }
}

#[test]
fn invalid_viewport_rejected() {
    let events = vec![Event::new(0, 0, 0)];
    let cfg = Config { view_w: 0, view_h: 135, follow_threshold: 40, target_zoom: 0 };
    assert_eq!(calculate_cameras(&events, &cfg).unwrap_err(), ConfigError::InvalidViewport);
    let cfg = Config { view_w: 240, view_h: -3, follow_threshold: 40, target_zoom: 0 };
    assert_eq!(calculate_cameras(&events, &cfg).unwrap_err(), ConfigError::InvalidViewport);
    let cfg = Config { view_w: 240, view_h: 2_000_000_000, follow_threshold: 40, target_zoom: 0 };
    assert_eq!(calculate_cameras(&events, &cfg).unwrap_err(), ConfigError::InvalidViewport);
}

#[test]
fn invalid_threshold_rejected() {
    let events = vec![Event::new(0, 0, 0)];
    let cfg = Config { view_w: 240, view_h: 135, follow_threshold: -1, target_zoom: 0 };
    assert_eq!(calculate_cameras(&events, &cfg).unwrap_err(), ConfigError::InvalidThreshold);
    let cfg = Config { view_w: 240, view_h: 135, follow_threshold: 2_000_000_000, target_zoom: 0 };
    assert_eq!(calculate_cameras(&events, &cfg).unwrap_err(), ConfigError::InvalidThreshold);
    // the viewport is checked first
    let cfg = Config { view_w: 0, view_h: 135, follow_threshold: -1, target_zoom: 0 };
    assert_eq!(calculate_cameras(&events, &cfg).unwrap_err(), ConfigError::InvalidViewport);
}

#[test]
fn zero_threshold_is_valid() {
    // A zero threshold only accepts events touching the viewport. The
    // viewport follows the track's latest waypoint: after the move to
    // (5, 0) it covers [0, 10], so 11 is one unit outside it.
    let cfg = Config { view_w: 10, view_h: 10, follow_threshold: 0, target_zoom: 0 };
    let events = vec![Event::new(0, 0, 0), Event::new(1, 5, 0), Event::new(2, 11, 0)];
    let cams = calculate_cameras(&events, &cfg).unwrap();
    assert_eq!(cams.len(), 2);
    assert_eq!(cams[0].move_count(), 2);
    assert_eq!(cams[1].move_count(), 1);
}
