use rs_blocks::aggregator::Aggregator;
use rs_blocks::block::{Block, SensorKind, ValidatedPath};
use rs_blocks::ema::Ema;
use rs_blocks::monitor::{ChangeGate, Monitor, ReadSource};
use rs_blocks::text::{decimal_string, minutes_to_string, percent_text};
use rs_blocks::usage::{
	brightness_text, calc_cpu, calc_dcpu, get_mem_percentage, network_text, volume_text, Speed,
	Usage,
};

#[test]
fn minutes_to_string_works() {
	assert_eq!(minutes_to_string(3022, 10), "5h02m");
	assert_eq!(minutes_to_string(3027, 10), "5h03m");
	assert_eq!(minutes_to_string(600, 10), "1h00m");
	assert_eq!(minutes_to_string(5999, 100), "1h00m");
	assert_eq!(minutes_to_string(605, 10), "1h01m");
	assert_eq!(minutes_to_string(604999, 10000), "1h00m");
	assert_eq!(minutes_to_string(395, 10), "0h40m");
}

#[test]
fn minutes_round_half_up_and_large() {
	assert_eq!(minutes_to_string(25, 10), "0h03m");
	assert_eq!(minutes_to_string(24, 10), "0h02m");
	assert_eq!(minutes_to_string(0, 1), "0h00m");
	assert_eq!(minutes_to_string(1195, 10), "2h00m");
	assert_eq!(minutes_to_string(u64::MAX, 1), "307445734561825860h15m");
}

#[test]
fn decimal_digits() {
	assert_eq!(decimal_string(0), "0");
	assert_eq!(decimal_string(18), "18");
	assert_eq!(decimal_string(1000), "1000");
}

#[test]
fn create_json() {
	let json = Block::new("hi".to_string(), true).to_string();
	assert_eq!(json, "{\"name\":\"hi\",\"markup\":\"pango\",\"separator_block_width\":18}");
}

#[test]
fn block_json_all_fields_and_escapes() {
	let mut b = Block::new("t\"x".to_string(), false);
	b.background = Some("#000000".to_string());
	b.colour = Some("#ffffff".to_string());
	b.full_text = Some("a\\b\nc".to_string());
	b.separator = Some(false);
	b.separator_block_width = None;
	assert_eq!(
		b.to_string(),
		"{\"name\":\"t\\\"x\",\"background\":\"#000000\",\"colour\":\"#ffffff\",\"full_text\":\"a\\\\b\\nc\",\"separator\":false}"
	);
}

#[test]
fn ema_first_push_then_blend() {
	let mut e = Ema::new(1, 2);
	assert_eq!(e.push(10), 10);
	assert_eq!(e.push(20), 15);
	assert_eq!(e.push(15), 15);
	let mut f = Ema::new(8, 10);
	assert_eq!(f.push(100), 100);
	assert_eq!(f.push(200), 120);
	assert_eq!(f.push(0), 96);
}

#[test]
fn ema_alpha_one_keeps_history() {
	let mut e = Ema::new(3, 3);
	assert_eq!(e.push(7), 7);
	assert_eq!(e.push(1000), 7);
	assert_eq!(e.push(u64::MAX), 7);
}

#[test]
fn ema_extremes_do_not_overflow() {
	let mut e = Ema::new(1, u64::MAX);
	assert_eq!(e.push(u64::MAX), u64::MAX);
	assert_eq!(e.push(u64::MAX), u64::MAX);
	let mut f = Ema::new(u64::MAX - 1, u64::MAX);
	assert_eq!(f.push(u64::MAX), u64::MAX);
	assert_eq!(f.push(0), u64::MAX - 1);
}

#[test]
fn ema_reset_reseeds() {
	let mut e = Ema::new(1, 2);
	e.push(100);
	e.push(50);
	e.reset();
	assert_eq!(e.push(4), 4);
	assert_eq!(e.push(8), 6);
}

fn aggregator(names: &[&str]) -> Aggregator {
	Aggregator::new(names.iter().map(|n| n.to_string()).collect())
}

#[test]
fn aggregator_orders_and_skips_silent() {
	let mut a = aggregator(&["a", "b", "c"]);
	assert_eq!(a.receive("b".to_string(), "X".to_string()), "[X],");
	assert_eq!(a.receive("a".to_string(), "Y".to_string()), "[Y,X],");
	assert_eq!(a.render(), "[Y,X],");
}

#[test]
fn aggregator_duplicate_message_same_line() {
	let mut a = aggregator(&["a", "b"]);
	a.receive("a".to_string(), "1".to_string());
	let first = a.receive("b".to_string(), "2".to_string());
	let second = a.receive("b".to_string(), "2".to_string());
	assert_eq!(first, second);
	assert_eq!(second, "[1,2],");
}

#[test]
fn aggregator_keeps_latest_and_ignores_unordered() {
	let mut a = aggregator(&["a"]);
	assert_eq!(a.render(), "[],");
	assert_eq!(a.receive("z".to_string(), "Q".to_string()), "[],");
	a.receive("a".to_string(), "old".to_string());
	assert_eq!(a.receive("a".to_string(), "new".to_string()), "[new],");
}

#[test]
fn aggregator_three_sensors_scenario() {
	let mut a = aggregator(&["cpu", "mem", "time"]);
	let mut time = Block::new("time".to_string(), false);
	time.full_text = Some("12:00:00".to_string());
	time.separator_block_width = None;
	let line = a.receive("time".to_string(), time.to_string());
	assert_eq!(line, "[{\"name\":\"time\",\"full_text\":\"12:00:00\"}],");
	let mut cpu = Block::new("cpu".to_string(), false);
	cpu.full_text = Some("5.0%".to_string());
	cpu.separator_block_width = None;
	let line = a.receive("cpu".to_string(), cpu.to_string());
	assert_eq!(
		line,
		"[{\"name\":\"cpu\",\"full_text\":\"5.0%\"},{\"name\":\"time\",\"full_text\":\"12:00:00\"}],"
	);
}

#[test]
fn monitor_first_tick_immediate_then_period() {
	let mut m = Monitor::new(ReadSource::File("/proc/stat".to_string()), 1500);
	assert_eq!(m.next_wait(), 0);
	assert_eq!(m.next_wait(), 1500);
	assert_eq!(m.next_wait(), 1500);
}

#[test]
fn monitor_read_before_ticks_keeps_first_immediate() {
	let mut m = Monitor::new(ReadSource::File("/f".to_string()), 600);
	assert_eq!(m.read(Some("42\n".to_string())), "42\n");
	assert_eq!(m.next_wait(), 0);
}

#[test]
fn monitor_failed_reads_give_placeholders() {
	let mut m = Monitor::new(ReadSource::File("/sys/x".to_string()), 10);
	assert_eq!(m.read(None), "Failed to read: /sys/x");
	assert_eq!(m.read(Some("ok".to_string())), "ok");
	let mut c = Monitor::new(
		ReadSource::Command("pulsemixer".to_string(), vec!["--get-mute".to_string()]),
		10,
	);
	assert_eq!(c.read(None), "Command failed: '\"pulsemixer\"'");
	let mut q = Monitor::new(ReadSource::Command("a\"b".to_string(), vec![]), 10);
	assert_eq!(q.read(None), "Command failed: '\"a\\\"b\"'");
}

#[test]
fn gate_passes_changes_and_forces_resend() {
	let mut g = ChangeGate::new("a".to_string());
	assert!(!g.observe("a".to_string()));
	assert!(g.observe("b".to_string()));
	let mut passed = Vec::new();
	for _ in 0..12 {
		passed.push(g.observe("b".to_string()));
	}
	assert_eq!(passed.iter().filter(|p| **p).count(), 1);
	assert!(passed[10]);
}

#[test]
fn validated_path_checks() {
	assert_eq!(ValidatedPath::validate("/a".to_string(), true).ok().map(|p| p.0), Some("/a".to_string()));
	assert_eq!(
		ValidatedPath::validate("/b".to_string(), false).err(),
		Some("Path '/b' does not exist".to_string())
	);
}

#[test]
fn sensor_kinds_by_name() {
	assert_eq!(SensorKind::from_name("battery"), Some(SensorKind::Battery));
	assert_eq!(SensorKind::from_name("volume"), Some(SensorKind::Volume));
	assert_eq!(SensorKind::from_name("time"), Some(SensorKind::Time));
	assert_eq!(SensorKind::from_name("disk"), None);
	assert_eq!(SensorKind::from_name("Time"), None);
}

#[test]
fn percent_with_one_decimal() {
	assert_eq!(percent_text("C", 1234), "C 12.3%");
	assert_eq!(percent_text("C", 1235), "C 12.4%");
	assert_eq!(percent_text("C", 0), "C 0.0%");
	assert_eq!(percent_text("M", 10000), "M 100.0%");
	assert_eq!(percent_text("M", 99996), "M 1000.0%");
}

#[test]
fn cpu_usage_from_counters() {
	let stats = vec![237476, 0, 85111, 17267319, 2310, 34402, 4846];
	let now = calc_cpu(&stats).unwrap();
	assert_eq!(now, Usage { idle: 17269629, total: 17631464 });
	assert_eq!(calc_cpu(&vec![u64::MAX, 0, 0, 0, 1]), None);
	let prev = Usage { idle: 100, total: 200 };
	let next = Usage { idle: 130, total: 300 };
	assert_eq!(calc_dcpu(&next, &prev), 7000);
	assert_eq!(calc_dcpu(&prev, &prev), 0);
	let third = Usage { idle: 131, total: 303 };
	assert_eq!(calc_dcpu(&third, &next), 6667);
}

#[test]
fn memory_usage_share() {
	assert_eq!(get_mem_percentage(16134372, 2757408), 8291);
	assert_eq!(get_mem_percentage(0, 0), 0);
	assert_eq!(get_mem_percentage(10, 20), 0);
}

#[test]
fn network_rates_in_tenths_of_kb() {
	let mut rx = Speed::new(1000);
	rx.push(1_000_000);
	rx.push(1_102_400);
	assert_eq!(rx.calc_speed(), 1000);
	let mut tx = Speed::new(500);
	tx.push(2048);
	tx.push(2560);
	assert_eq!(tx.calc_speed(), 10);
	tx.push(100);
	assert_eq!(tx.calc_speed(), 0);
	assert_eq!(
		network_text(1000, 10),
		"<span foreground='#ccffcc'>\u{f0ab} 100.0</span> <span foreground='#ffcccc'>\u{f0aa} 1.0</span>"
	);
	let mut big = Speed::new(1);
	big.push(u64::MAX);
	assert_eq!(big.calc_speed(), u64::MAX);
}

#[test]
fn volume_segment() {
	assert_eq!(
		volume_text(Some(("0".to_string(), "45".to_string())), "0\n45\n".to_string()),
		"\u{f028} 45%"
	);
	assert_eq!(
		volume_text(Some(("1".to_string(), "45".to_string())), "1\n45\n".to_string()),
		"\u{f026}"
	);
	assert_eq!(
		volume_text(None, "Command failed: '\"pulsemixer\"'".to_string()),
		"Command failed: '\"pulsemixer\"'"
	);
}

#[test]
fn brightness_segment() {
	assert_eq!(brightness_text("937\n".to_string(), 937), "\u{f042} 100%");
	assert_eq!(brightness_text("5\n".to_string(), 8), "\u{f042} 62%");
	assert_eq!(brightness_text("7\n".to_string(), 8), "\u{f042} 88%");
	assert_eq!(brightness_text("Failed to read: /b".to_string(), 8), "Failed to read: /b");
}
