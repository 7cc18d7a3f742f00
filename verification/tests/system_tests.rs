use optipc::gpu::{default_gpu_stats, gpu_from_nvidia_smi, gpu_from_wmi};
use optipc::system::has_cpu_sensor_word;
use optipc::system::{
    benchmark_result, first_system_disk, gib_of, is_cpu_temp_label, is_system_mount, memory_freed,
    page_file_script, parse_page_file_settings, recycle_bin_bytes, relaunch_as_admin_script,
    score_band, system_disk_usage, system_info, traffic_rows, DiskSpace, InterfaceCounters,
    PAGE_FILE_AUTO, PAGE_FILE_FIXED,
};

fn disk(mp: &str, total: u64, available: u64) -> DiskSpace {
    DiskSpace { mount_point: mp.to_string(), total, available }
}

fn iface(name: &str, sent: u64, recv: u64) -> InterfaceCounters {
    InterfaceCounters {
        name: name.to_string(),
        bytes_sent: sent,
        bytes_recv: recv,
        packets_sent: 1,
        packets_recv: 2,
        sent_since: 3,
        recv_since: 4,
    }
}

#[test]
fn system_info_fallbacks() {
    let i = system_info(None, None, None, None, 8, 42);
    assert_eq!(i.os_name, "Windows");
    assert_eq!(i.hostname, "PC");
    assert_eq!(i.cpu_brand, "Processeur inconnu");
    assert_eq!((i.cpu_cores, i.uptime_secs), (8, 42));
    let i = system_info(
        Some("Windows".into()),
        Some("11 (26100)".into()),
        Some("DESKTOP".into()),
        Some("  AMD Ryzen 7  ".into()),
        16,
        1,
    );
    assert_eq!(i.os_name, "Windows 11 (26100)");
    assert_eq!(i.hostname, "DESKTOP");
    assert_eq!(i.cpu_brand, "AMD Ryzen 7");
    assert_eq!(system_info(Some("Linux".into()), Some("".into()), None, None, 0, 0).os_name, "Linux");
}

#[test]
fn benchmark_total() {
    let r = benchmark_result(100, 80, 95, 1234);
    assert_eq!(r.total_score, (200 + 160 + 95) / 5);
    assert_eq!(r.total_score, 91);
    assert_eq!((r.cpu_score, r.ram_score, r.disk_score, r.duration_ms), (100, 80, 95, 1234));
}

#[test]
fn score_bands() {
    assert_eq!(score_band(80, 80, 600), Some(100));
    assert_eq!(score_band(0, 80, 600), Some(100));
    assert_eq!(score_band(600, 80, 600), Some(20));
    assert_eq!(score_band(81, 80, 600), None);
    assert_eq!(score_band(249, 25, 250), None);
}

#[test]
fn system_disk_selection() {
    assert!(is_system_mount("C:\\"));
    assert!(is_system_mount("/"));
    assert!(!is_system_mount("/home"));
    assert!(!is_system_mount("D:\\"));
    assert!(!is_system_mount(""));
    let disks = vec![disk("D:\\", 10, 5), disk("/", 100, 30), disk("C:\\", 50, 1)];
    assert_eq!(first_system_disk(&disks), Some(1));
    assert_eq!(system_disk_usage(&disks), (70, 100));
    assert_eq!(system_disk_usage(&vec![disk("/", 10, 20)]), (0, 10));
    assert_eq!(system_disk_usage(&vec![disk("/boot", 10, 2)]), (0, 1));
    assert_eq!(first_system_disk(&vec![]), None);
}

#[test]
fn gib_rounding() {
    assert_eq!(gib_of(0), 0);
    assert_eq!(gib_of(1_073_741_823), 0);
    assert_eq!(gib_of(1_073_741_824 * 5 + 7), 5);
    assert_eq!(gib_of(u64::MAX), (u64::MAX / 1_073_741_824) as u32);
}

#[test]
fn cpu_sensor_labels() {
    assert!(is_cpu_temp_label("CPU Package"));
    assert!(is_cpu_temp_label("k10temp Tctl"));
    assert!(is_cpu_temp_label("coretemp Core 0"));
    assert!(!is_cpu_temp_label("nvme Composite"));
    assert!(!is_cpu_temp_label(""));
}

#[test]
fn traffic_rows_prefer_active() {
    let (rows, rated) = traffic_rows(vec![iface("lo", 0, 0), iface("eth0", 5, 0), iface("wlan", 0, 3)]);
    assert!(rated);
    let names: Vec<&str> = rows.iter().map(|r| r.name.as_str()).collect();
    assert_eq!(names, vec!["eth0", "wlan"]);
    let (rows, rated) = traffic_rows(vec![iface("lo", 0, 0), iface("x", 0, 0)]);
    assert!(!rated);
    assert_eq!(rows.len(), 2);
    let (rows, rated) = traffic_rows(vec![]);
    assert!(!rated && rows.is_empty());
}

#[test]
fn freed_memory() {
    assert_eq!(memory_freed(100, 40), 60);
    assert_eq!(memory_freed(40, 100), 0);
    assert_eq!(memory_freed(5, 5), 0);
}

#[test]
fn page_file_parsing() {
    let s = parse_page_file_settings("False|4096|8192");
    assert_eq!((s.is_auto, s.min_mb, s.max_mb), (false, 4096, 8192));
    let s = parse_page_file_settings("True|0|0");
    assert_eq!((s.is_auto, s.min_mb, s.max_mb), (true, 0, 0));
    let s = parse_page_file_settings(" FALSE | 12 |x|extra");
    assert_eq!((s.is_auto, s.min_mb, s.max_mb), (false, 12, 0));
    let s = parse_page_file_settings("False|1");
    assert_eq!((s.is_auto, s.min_mb, s.max_mb), (true, 0, 0));
    assert_eq!(page_file_script(true), PAGE_FILE_FIXED);
    assert_eq!(page_file_script(false), PAGE_FILE_AUTO);
    assert!(PAGE_FILE_AUTO.contains("AutomaticManagedPagefile = $true"));
}

#[test]
fn relaunch_script_quotes_path() {
    assert_eq!(
        relaunch_as_admin_script("C:\\Program Files\\O'Pt\\app.exe"),
        "Start-Process -FilePath 'C:\\Program Files\\O''Pt\\app.exe' -Verb RunAs -WindowStyle Hidden"
    );
}

#[test]
fn recycle_bin_size() {
    assert_eq!(recycle_bin_bytes("1048576"), 1_048_576);
    assert_eq!(recycle_bin_bytes("\n 12 \n"), 12);
    assert_eq!(recycle_bin_bytes("1.5"), 0);
    assert_eq!(recycle_bin_bytes(""), 0);
}

#[test]
fn nvidia_smi_output() {
    let g = gpu_from_nvidia_smi("NVIDIA GeForce RTX 3070, 35, 61, 2048, 8192\r\n").unwrap();
    assert_eq!(g.name, "NVIDIA GeForce RTX 3070");
    assert_eq!((g.usage, g.temp, g.vram_used_mb, g.vram_total_mb), (35, 61, 2048, 8192));
    let g = gpu_from_nvidia_smi("A, [N/A], 50, 1, 2, 3").unwrap();
    assert_eq!((g.usage, g.temp, g.vram_used_mb), (0, 50, 1));
    assert_eq!(g.vram_total_mb, 0);
    assert!(gpu_from_nvidia_smi("only, four, fields, here").is_none());
    assert!(gpu_from_nvidia_smi("").is_none());
}

#[test]
fn wmi_output() {
    let g = gpu_from_wmi("Intel UHD|12|0|0|1024");
    assert_eq!(g.name, "Intel UHD");
    assert_eq!((g.usage, g.temp, g.vram_used_mb, g.vram_total_mb), (12, 0, 0, 1024));
    let g = gpu_from_wmi("GPU|0|0|0|0");
    assert_eq!(g.name, "GPU");
    let d = gpu_from_wmi("");
    let e = default_gpu_stats();
    assert_eq!((d.name, d.usage, d.vram_total_mb), (e.name, e.usage, e.vram_total_mb));
    // Fields are not trimmed.
    assert_eq!(gpu_from_wmi("X| 5|0|0|0").usage, 0);
}

#[test]
fn cpu_word_on_lower_case_text() {
    assert!(has_cpu_sensor_word("cpu package"));
    assert!(has_cpu_sensor_word("tctl"));
    assert!(!has_cpu_sensor_word("CPU"));
    assert!(!has_cpu_sensor_word("gpu"));
}
