use rs_blocks::battery::{
	create_full_text, get_symbol, str_to_charge, str_to_status, wrap_in_colour, BatteryEvent,
	BatteryState, Status,
};
use rs_blocks::text::{parse_counter, parse_decimal};

#[test]
fn test_wrap_in_colour() {
	let result = wrap_in_colour("a", 100, 100);
	assert_eq!(result, "<span foreground=\'#00ff00\'>a</span>");

	let result = wrap_in_colour("a", 1, 100);
	assert_eq!(result, "<span foreground=\'#ff0500\'>a</span>");
}

#[test]
fn colour_caps_and_midpoint() {
	assert_eq!(wrap_in_colour("b", 5, 0), "<span foreground='#00ff00'>b</span>");
	assert_eq!(wrap_in_colour("b", 300, 100), "<span foreground='#00ff00'>b</span>");
	assert_eq!(wrap_in_colour("b", 50, 100), "<span foreground='#ffff00'>b</span>");
	assert_eq!(wrap_in_colour("b", 0, 100), "<span foreground='#ff0000'>b</span>");
	assert_eq!(wrap_in_colour("b", 75, 100), "<span foreground='#80ff00'>b</span>");
}

#[test]
fn symbols_by_status_and_level() {
	assert_eq!(get_symbol(Status::Discharging, 95, 100), "<span foreground='#1aff00'>\u{f240} </span>");
	assert_eq!(get_symbol(Status::Discharging, 10, 100), "<span foreground='#ff3300'>\u{f244} </span>");
	assert_eq!(get_symbol(Status::Charging, 10, 100), "<span foreground='#ff3300'>\u{f5e7} </span>");
}

#[test]
fn full_text_rounds_percent_to_even() {
	assert_eq!(
		create_full_text(Status::Unknown, 1, 8, "x"),
		"<span foreground='#ff3f00'>\u{f5e7} </span> 12% (x)"
	);
	assert_eq!(
		create_full_text(Status::Unknown, 3, 8, "x"),
		"<span foreground='#ffbf00'>\u{f5e7} </span> 38% (x)"
	);
}

#[test]
fn status_texts() {
	assert_eq!(str_to_status("Charging\n"), Ok(BatteryEvent::Status(Status::Charging)));
	assert_eq!(str_to_status(" Not charging "), Ok(BatteryEvent::Status(Status::NotCharging)));
	assert_eq!(str_to_status("Full"), Ok(BatteryEvent::Status(Status::Full)));
	assert_eq!(str_to_status("Unknown\n"), Ok(BatteryEvent::Status(Status::Unknown)));
	assert_eq!(str_to_status("Discharging"), Ok(BatteryEvent::Status(Status::Discharging)));
	assert_eq!(str_to_status("Broken\n"), Err("Unknown status Broken".to_string()));
}

#[test]
fn charge_texts() {
	assert_eq!(str_to_charge("2757408\n"), Ok(BatteryEvent::Charge(2757408)));
	assert_eq!(
		str_to_charge("12a\n"),
		Err("Unexpected value for charge '12a\n'".to_string())
	);
	assert_eq!(parse_decimal("18446744073709551615"), Some(u64::MAX));
	assert_eq!(parse_decimal("18446744073709551616"), None);
	assert_eq!(parse_decimal(""), None);
	assert_eq!(parse_decimal("-1"), None);
	assert_eq!(parse_decimal("007"), Some(7));
}

fn segment(text: &str) -> String {
	format!(
		"{{\"name\":\"battery\",\"full_text\":\"{}\",\"markup\":\"pango\",\"separator_block_width\":18}}",
		text
	)
}

#[test]
fn battery_estimates_time_left() {
	let mut b = BatteryState::new("battery".to_string(), 1, 2, 1000, 500, Status::Discharging, 0);
	assert_eq!(b.initial_message(), None);

	let seed = b.on_event(BatteryEvent::Charge(490), 60);
	assert_eq!(seed, Some(segment("<span foreground='#fff900'>\u{f242} </span> 49% (...)")));

	let first = b.on_event(BatteryEvent::Charge(480), 120);
	assert_eq!(first, Some(segment("<span foreground='#fff400'>\u{f242} </span> 48% (0h48m)")));

	assert_eq!(b.on_event(BatteryEvent::Charge(480), 150), None);

	let second = b.on_event(BatteryEvent::Charge(470), 180);
	assert_eq!(second, Some(segment("<span foreground='#ffef00'>\u{f242} </span> 47% (0h48m)")));

	let charging = b.on_event(BatteryEvent::Status(Status::Charging), 200);
	assert_eq!(charging, Some(segment("<span foreground='#ffef00'>\u{f5e7} </span> 47% (...)")));

	let reseed = b.on_event(BatteryEvent::Charge(470), 210);
	assert_eq!(reseed, Some(segment("<span foreground='#ffef00'>\u{f5e7} </span> 47% (...)")));

	let rate = b.on_event(BatteryEvent::Charge(530), 270);
	assert_eq!(rate, Some(segment("<span foreground='#f0ff00'>\u{f5e7} </span> 53% (0h08m)")));

	let full = b.on_event(BatteryEvent::Status(Status::Full), 280);
	assert_eq!(full, Some(segment("<span foreground='#f0ff00'>\u{f5e7} </span> 53% (Full)")));
}

#[test]
fn battery_full_at_start_reports_at_once() {
	let mut b = BatteryState::new("battery".to_string(), 4, 5, 1000, 1000, Status::Full, 0);
	assert_eq!(
		b.initial_message(),
		Some(segment("<span foreground='#00ff00'>\u{f5e7} </span> 100% (Full)"))
	);
}

#[test]
fn counters_ignore_surrounding_whitespace() {
	assert_eq!(parse_counter("  1024\n"), Some(1024));
	assert_eq!(parse_counter("\n"), None);
	assert_eq!(parse_counter("1 024"), None);
}
