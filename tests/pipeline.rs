use gpu_exporter::amd::{
    amd_cards_from_json, amd_device_from_fields, devices_from_amd_cards, memory_of,
    parse_amd_output, AmdCardFields,
};
use gpu_exporter::config::{complex_mode_from, interval_from, DEFAULT_INTERVAL_SECS};
use gpu_exporter::number::{mib_to_mb, parse_u32_or_zero, parse_unsigned};
use gpu_exporter::nvidia::{parse_gpu_rows, parse_process_rows, Nvidia, NvidiaPayload};
use gpu_exporter::record::{DeviceRecord, Smi};
use gpu_exporter::snapshot::{
    assemble, snapshot_from_cards, snapshot_from_outputs, starting_body, SnapshotCache,
};
use gpu_exporter::text::{fields, lines, split_chars, trim_chars};

fn chars(s: &str) -> Vec<char> {
    s.chars().collect()
}

fn text(v: &[char]) -> String {
    v.iter().collect()
}

fn basic(index: u32, name: &str, util: u32, used: u32, total: u32) -> DeviceRecord {
    DeviceRecord {
        index,
        name: name.to_string(),
        gpu_utilization_percent: util,
        gpu_memory_used_mb: used,
        gpu_memory_total_mb: total,
        power_draw: None,
        temperature_celsius: None,
        clock_sm_mhz: None,
        clock_mem_mhz: None,
        clock_graphics_mhz: None,
        pcie_gen: None,
        pcie_width: None,
        up: true,
    }
}

#[test]
fn basic_row_yields_one_record() {
    let r = parse_gpu_rows("0, Test GPU, 45, 2048, 8192", false);
    assert_eq!(r, vec![basic(0, "Test GPU", 45, 2048, 8192)]);
}

#[test]
fn basic_row_with_trailing_newline() {
    let r = parse_gpu_rows("0, Test GPU, 45, 2048, 8192\n1, Other, 3, 10, 20\n", false);
    assert_eq!(r, vec![basic(0, "Test GPU", 45, 2048, 8192), basic(1, "Other", 3, 10, 20)]);
}

#[test]
fn crlf_lines_are_read() {
    let r = parse_gpu_rows("0, A, 1, 2, 3\r\n1, B, 4, 5, 6\r\n", false);
    assert_eq!(r, vec![basic(0, "A", 1, 2, 3), basic(1, "B", 4, 5, 6)]);
}

#[test]
fn rich_row_fills_every_field() {
    let r = parse_gpu_rows(
        "1, NVIDIA A100, 87, 30000, 40960, 251.34, 65, 1410, 1215, 1410, 4, 16",
        true,
    );
    assert_eq!(r.len(), 1);
    let d = &r[0];
    assert_eq!(d.index, 1);
    assert_eq!(d.name, "NVIDIA A100");
    assert_eq!(d.gpu_utilization_percent, 87);
    assert_eq!(d.gpu_memory_used_mb, 30000);
    assert_eq!(d.gpu_memory_total_mb, 40960);
    assert_eq!(d.power_draw, Some("251.34".to_string()));
    assert_eq!(d.temperature_celsius, Some(65));
    assert_eq!(d.clock_sm_mhz, Some(1410));
    assert_eq!(d.clock_mem_mhz, Some(1215));
    assert_eq!(d.clock_graphics_mhz, Some(1410));
    assert_eq!(d.pcie_gen, Some(4));
    assert_eq!(d.pcie_width, Some(16));
    assert!(d.up);
}

#[test]
fn basic_row_is_not_a_rich_row() {
    assert!(parse_gpu_rows("0, Test GPU, 45, 2048, 8192", true).is_empty());
    assert!(parse_gpu_rows(
        "1, NVIDIA A100, 87, 30000, 40960, 251.34, 65, 1410, 1215, 1410, 4, 16",
        false
    )
    .is_empty());
}

#[test]
fn malformed_rows_are_dropped_whole() {
    let out = "0, A, 1, 2, 3\n1, B, 4, 5\n2, C, 7, 8, 9, 10\n\n3, D, 1, 1, 1";
    let r = parse_gpu_rows(out, false);
    assert_eq!(r, vec![basic(0, "A", 1, 2, 3), basic(3, "D", 1, 1, 1)]);
}

#[test]
fn bad_field_reads_as_zero() {
    let r = parse_gpu_rows("x, Card, [N/A], 12, -3", false);
    assert_eq!(r, vec![basic(0, "Card", 0, 12, 0)]);
}

#[test]
fn empty_output_has_no_devices() {
    assert!(parse_gpu_rows("", false).is_empty());
    assert!(parse_gpu_rows("", true).is_empty());
    assert!(parse_process_rows("").is_empty());
}

#[test]
fn process_rows_are_read() {
    let r = parse_process_rows("GPU-abc, 1234, python, 512\nbroken, row\nGPU-def, 99, /usr/bin/x, 1\n");
    assert_eq!(r.len(), 2);
    assert_eq!(r[0].gpu_uuid, "GPU-abc");
    assert_eq!(r[0].pid, 1234);
    assert_eq!(r[0].process_name, "python");
    assert_eq!(r[0].used_gpu_memory_mb, 512);
    assert_eq!(r[1].gpu_uuid, "GPU-def");
    assert_eq!(r[1].pid, 99);
    assert_eq!(r[1].process_name, "/usr/bin/x");
    assert_eq!(r[1].used_gpu_memory_mb, 1);
}

#[test]
fn parsing_twice_gives_the_same_snapshot() {
    let g = "0, A, 1, 2, 3\n1, B, 4, 5, 6";
    let p = "GPU-1, 7, proc, 8";
    let a = "{\"card\": {\"0\": {\"Card series\": \"MI100\", \"GPU use (%)\": \"12\"}}}";
    let s1 = snapshot_from_outputs(true, Some(g), Some(p), Some(a));
    let s2 = snapshot_from_outputs(true, Some(g), Some(p), Some(a));
    assert_eq!(s1, s2);
    let t1 = snapshot_from_outputs(false, Some(g), None, Some(a));
    let t2 = snapshot_from_outputs(false, Some(g), None, Some(a));
    assert_eq!(t1, t2);
}

#[test]
fn launch_failure_gives_empty_snapshot() {
    let s = snapshot_from_outputs(false, None, None, None);
    assert_eq!(s.nvidia, NvidiaPayload::Basic(vec![]));
    assert!(s.amd.is_empty());
    let r = snapshot_from_outputs(true, None, None, None);
    assert_eq!(r.nvidia, NvidiaPayload::Rich { gpus: vec![], processes: vec![] });
    assert!(r.amd.is_empty());
}

#[test]
fn collect_follows_the_mode() {
    let g = "0, Test GPU, 45, 2048, 8192";
    assert_eq!(
        Nvidia.collect(false, Some(g), Some("GPU-1, 7, proc, 8")),
        NvidiaPayload::Basic(vec![basic(0, "Test GPU", 45, 2048, 8192)])
    );
    match Nvidia.collect(true, Some(g), Some("GPU-1, 7, proc, 8")) {
        NvidiaPayload::Rich { gpus, processes } => {
            assert!(gpus.is_empty());
            assert_eq!(processes.len(), 1);
            assert_eq!(processes[0].pid, 7);
        }
        NvidiaPayload::Basic(_) => panic!("rich mode gave a basic payload"),
    }
}

#[test]
fn starting_placeholder_before_first_poll() {
    let cache = SnapshotCache::new();
    assert_eq!(cache.current(), "{\"status\":\"starting\"}");
    assert_eq!(starting_body(), "{\"status\":\"starting\"}");
}

#[test]
fn publish_replaces_the_body() {
    let mut cache = SnapshotCache::new();
    cache.publish("{\"nvidia\":[],\"amd\":[]}".to_string());
    assert_eq!(cache.current(), "{\"nvidia\":[],\"amd\":[]}");
    cache.publish("{}".to_string());
    assert_eq!(cache.current(), "{}");
}

#[test]
fn mebibytes_to_megabytes() {
    assert_eq!(mib_to_mb(0), 0);
    assert_eq!(mib_to_mb(1), 1);
    assert_eq!(mib_to_mb(1024), 1073);
    assert_eq!(mib_to_mb(1048576), 1099511);
    assert_eq!(mib_to_mb(u32::MAX), 4503599626);
}

#[test]
fn unsigned_numbers() {
    assert_eq!(parse_u32_or_zero(&chars("45")), 45);
    assert_eq!(parse_u32_or_zero(&chars("+7")), 7);
    assert_eq!(parse_u32_or_zero(&chars("007")), 7);
    assert_eq!(parse_u32_or_zero(&chars("4294967295")), u32::MAX);
    assert_eq!(parse_u32_or_zero(&chars("4294967296")), 0);
    assert_eq!(parse_u32_or_zero(&chars("")), 0);
    assert_eq!(parse_u32_or_zero(&chars("+")), 0);
    assert_eq!(parse_u32_or_zero(&chars("-5")), 0);
    assert_eq!(parse_u32_or_zero(&chars("12a")), 0);
    assert_eq!(parse_u32_or_zero(&chars(" 1")), 0);
    assert_eq!(parse_unsigned(&chars("18446744073709551615"), u64::MAX), Some(u64::MAX));
    assert_eq!(parse_unsigned(&chars("18446744073709551616"), u64::MAX), None);
    assert_eq!(parse_unsigned(&chars("11"), 10), None);
    assert_eq!(parse_unsigned(&chars("10"), 10), Some(10));
}

#[test]
fn numbers_agree_with_str_parse() {
    for s in ["0", "1", "+1", "-1", "", "+", "99999999999", "4294967295", "4294967296", "1_0", "١"] {
        assert_eq!(parse_u32_or_zero(&chars(s)), s.parse::<u32>().unwrap_or(0), "{}", s);
    }
}

#[test]
fn trimming_matches_str_trim() {
    for s in ["  a b  ", "\t\r\nx\u{a0}", "\u{3000}y\u{2003}", "", "   ", "z"] {
        assert_eq!(text(&trim_chars(&chars(s))), s.trim());
    }
}

#[test]
fn splitting_matches_str_split() {
    for s in ["a,b,,c", "", ",", "abc", "a,"] {
        let got: Vec<String> = split_chars(&chars(s), ',').iter().map(|v| text(v)).collect();
        let want: Vec<String> = s.split(',').map(|x| x.to_string()).collect();
        assert_eq!(got, want);
    }
    let f: Vec<String> = fields(&chars(" a , b ,c")).iter().map(|v| text(v)).collect();
    assert_eq!(f, vec!["a", "b", "c"]);
}

#[test]
fn lines_match_str_lines() {
    for s in ["a\nb", "a\nb\n", "", "\n", "\n\n", "a\r\nb"] {
        let got: Vec<String> = lines(&chars(s)).iter().map(|v| text(v).trim_end_matches('\r').to_string()).collect();
        let want: Vec<String> = s.lines().map(|x| x.to_string()).collect();
        assert_eq!(got, want);
    }
}

#[test]
fn combined_memory_field_is_split() {
    assert_eq!(memory_of(&Some("512 / 4096".to_string())), (512, 4096));
    assert_eq!(memory_of(&Some("7/9/11".to_string())), (7, 9));
    assert_eq!(memory_of(&Some("512".to_string())), (512, 0));
    assert_eq!(memory_of(&Some("a / b".to_string())), (0, 0));
    assert_eq!(memory_of(&None), (0, 0));
}

#[test]
fn amd_document_memory_string() {
    let doc = "{\"card\": {\"0\": {\"Card series\": \"Radeon\", \"GPU Memory Usage (MB)\": \"512 / 4096\"}}}";
    let r = parse_amd_output(doc);
    assert_eq!(r.len(), 1);
    assert_eq!(r[0].gpu_memory_used_mb, 512);
    assert_eq!(r[0].gpu_memory_total_mb, 4096);
    assert_eq!(r[0].name, "Radeon");
}

#[test]
fn amd_document_without_memory_field() {
    let doc = "{\"card\": {\"3\": {\"GPU use (%)\": \"40\", \"Temperature (Sensor edge) (C)\": \"51\"}}}";
    let r = parse_amd_output(doc);
    assert_eq!(r.len(), 1);
    let d = &r[0];
    assert_eq!(d.index, 3);
    assert_eq!(d.name, "Unknown AMD GPU");
    assert_eq!(d.gpu_utilization_percent, 40);
    assert_eq!(d.gpu_memory_used_mb, 0);
    assert_eq!(d.gpu_memory_total_mb, 0);
    assert_eq!(d.temperature_celsius, Some(51));
    assert!(d.up);
}

#[test]
fn amd_cards_come_in_key_order() {
    let doc = "{\"card\": {\"1\": {\"Card series\": \"B\"}, \"0\": {\"Card series\": \"A\", \"GPU use (%)\": 5}}}";
    let cards = amd_cards_from_json(doc);
    assert_eq!(cards.len(), 2);
    assert_eq!(cards[0].key, "0");
    assert_eq!(cards[0].card_series, Some("A".to_string()));
    assert_eq!(cards[0].gpu_use, None);
    assert_eq!(cards[1].key, "1");
    assert_eq!(cards[1].card_series, Some("B".to_string()));
}

#[test]
fn unreadable_amd_document_has_no_devices() {
    assert!(parse_amd_output("").is_empty());
    assert!(parse_amd_output("not json").is_empty());
    assert!(parse_amd_output("{\"cards\": {}}").is_empty());
    assert!(parse_amd_output("{\"card\": [1, 2]}").is_empty());
}

#[test]
fn amd_card_fields_to_device() {
    let c = AmdCardFields {
        key: "x".to_string(),
        card_series: None,
        gpu_use: Some("101".to_string()),
        memory_usage: Some(" 10 / 20 ".to_string()),
        edge_temperature: Some("hot".to_string()),
    };
    let d = amd_device_from_fields(&c);
    assert_eq!(d.index, 0);
    assert_eq!(d.name, "Unknown AMD GPU");
    assert_eq!(d.gpu_utilization_percent, 101);
    assert_eq!((d.gpu_memory_used_mb, d.gpu_memory_total_mb), (10, 20));
    assert_eq!(d.temperature_celsius, Some(0));
    assert_eq!(d.power_draw, None);
    assert_eq!(devices_from_amd_cards(&vec![c.clone(), c]).len(), 2);
}

#[test]
fn snapshot_keeps_vendor_indices() {
    let cards = amd_cards_from_json("{\"card\": {\"0\": {\"Card series\": \"R\"}}}");
    let s = snapshot_from_cards(false, Some("0, N, 1, 2, 3"), None, &cards);
    assert_eq!(s.nvidia, NvidiaPayload::Basic(vec![basic(0, "N", 1, 2, 3)]));
    assert_eq!(s.amd.len(), 1);
    assert_eq!(s.amd[0].index, 0);
    let a = assemble(NvidiaPayload::Basic(vec![]), vec![]);
    assert!(a.amd.is_empty());
}

#[test]
fn smi_readings_default_to_zero() {
    let d = basic(2, "G", 9, 100, 200);
    assert_eq!(d.name(), "G");
    assert_eq!(Smi::gpu_utilization_percent(&d), 9);
    assert_eq!(Smi::gpu_memory_used_mib(&d), 100);
    assert_eq!(Smi::gpu_memory_total_mib(&d), 200);
    assert_eq!(Smi::gpu_memory_used_mb(&d), 104);
    assert_eq!(Smi::gpu_memory_total_mb(&d), 209);
    let big = basic(0, "H", 0, 1024, 1048576);
    assert_eq!(Smi::gpu_memory_used_mb(&big), 1073);
    assert_eq!(Smi::gpu_memory_total_mb(&big), 1099511);
    assert_eq!(Smi::temperature_celsius(&d), 0);
    assert_eq!(Smi::clock_sm_mhz(&d), 0);
    assert_eq!(Smi::pcie_width(&d), 0);
    assert!(Smi::up(&d));
    let mut e = d.clone();
    e.temperature_celsius = Some(70);
    e.pcie_gen = Some(3);
    assert_eq!(Smi::temperature_celsius(&e), 70);
    assert_eq!(Smi::pcie_gen(&e), 3);
}

#[test]
fn settings_decisions() {
    assert!(complex_mode_from(Some("1")));
    assert!(!complex_mode_from(Some("true")));
    assert!(!complex_mode_from(Some("0")));
    assert!(!complex_mode_from(None));
    assert_eq!(interval_from(Some("15")), 15);
    assert_eq!(interval_from(Some("soon")), DEFAULT_INTERVAL_SECS);
    assert_eq!(interval_from(None), 60);
}

#[test]
fn amd_full_card_document() {
    let doc = "{\"card\":{\"0\":{\"Card series\":\"Radeon\",\"GPU use (%)\":\"10\",\"GPU Memory Usage (MB)\":\"512 / 4096\",\"Temperature (Sensor edge) (C)\":\"50\"}}}";
    let r = parse_amd_output(doc);
    assert_eq!(r.len(), 1);
    let d = &r[0];
    assert_eq!((d.index, d.name.as_str(), d.gpu_utilization_percent), (0, "Radeon", 10));
    assert_eq!((d.gpu_memory_used_mb, d.gpu_memory_total_mb), (512, 4096));
    assert_eq!(d.temperature_celsius, Some(50));
    assert!(d.up);
}

#[test]
fn amd_bad_key_and_number_field() {
    let r = parse_amd_output("{\"card\":{\"abc\":{\"GPU use (%)\":37}}}");
    assert_eq!(r.len(), 1);
    let d = &r[0];
    assert_eq!(d.index, 0);
    assert_eq!(d.name, "Unknown AMD GPU");
    assert_eq!(d.gpu_utilization_percent, 0);
    assert_eq!((d.gpu_memory_used_mb, d.gpu_memory_total_mb), (0, 0));
    assert_eq!(d.temperature_celsius, Some(0));
}

#[test]
fn amd_two_cards_in_key_order() {
    let doc = "{\"card\":{\"1\":{\"Card series\":\"B\",\"GPU Memory Usage (MB)\":\"100 / 200\"},\"0\":{\"Card series\":\"A\"}}}";
    let r = parse_amd_output(doc);
    assert_eq!(r.len(), 2);
    assert_eq!((r[0].index, r[0].name.as_str(), r[0].gpu_memory_used_mb), (0, "A", 0));
    assert_eq!((r[1].index, r[1].name.as_str()), (1, "B"));
    assert_eq!((r[1].gpu_memory_used_mb, r[1].gpu_memory_total_mb), (100, 200));
    assert_eq!(parse_amd_output(doc), r);
}

#[test]
fn amd_card_member_not_an_object() {
    assert!(parse_amd_output("{\"card\": \"none\"}").is_empty());
    assert!(parse_amd_output("[1, 2, 3]").is_empty());
}
