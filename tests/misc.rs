use configparser::ini::Ini;
use fuzzer::{
    find_addr_by_sym, get_args, get_user_stat, lookup_symbol, parse_args, plot_row_due, Config, DynamicSymbol,
    ElfError, ExitKind, FuzzError, SimpleQEMU, SymbolName, UserStat,
};

fn strings(v: &[&str]) -> Vec<String> {
    v.iter().map(|s| s.to_string()).collect()
}

#[test]
fn get_args_defaults_to_input_file() {
    let (target, args) = get_args(&strings(&["fuzzer", "/bin/t"])).unwrap();
    assert_eq!(target, "/bin/t");
    assert_eq!(args, vec!["@@"]);
    let (target, args) = get_args(&strings(&["fuzzer", "/bin/t", "-v", "@@"])).unwrap();
    assert_eq!(target, "/bin/t");
    assert_eq!(args, vec!["-v", "@@"]);
}

#[test]
fn get_args_needs_a_target() {
    assert_eq!(get_args(&strings(&["fuzzer"])), Err(FuzzError::MissingTarget));
    assert_eq!(get_args(&Vec::new()), Err(FuzzError::MissingTarget));
}

#[test]
fn parse_args_needs_target_arguments() {
    assert_eq!(parse_args(&strings(&["showmap", "/bin/t"])), None);
    assert_eq!(parse_args(&strings(&["showmap", "/bin/t", "a", "b"])), Some(("/bin/t".to_string(), strings(&["a", "b"]))));
}

#[test]
fn config_defaults() {
    let c = Config::from_values(None, None, Some("/qemu".to_string()), None, None, None, None, None).unwrap();
    assert_eq!(c.map_size, 1024);
    assert_eq!(c.persistent_sym, "main");
    assert_eq!(c.qemu_path, "/qemu");
    assert_eq!(c.crash_path, "./crashes");
    assert_eq!(c.corpus_path, "./corpus");
    assert_eq!(c.ld_library_path, None);
    assert_eq!(c.queue_path, None);
    assert_eq!(c.plot_path, None);
}

#[test]
fn config_requires_qemu_path() {
    assert_eq!(
        Config::from_values(Some(64), None, None, None, None, None, None, None).err(),
        Some(FuzzError::MissingQemuPath)
    );
}

#[test]
fn config_from_ini() {
    let mut ini = Ini::new();
    ini.read(
        "[general]\nmap_size = 4096\nqemu_path = /afl/qemu\nld_library_path = /fuzz/lib\nplot_path = ./plots\ncrash_path = ./out\n"
            .to_string(),
    )
    .unwrap();
    let c = Config::from_ini(&ini).unwrap();
    assert_eq!(c.map_size, 4096);
    assert_eq!(c.qemu_path, "/afl/qemu");
    assert_eq!(c.ld_library_path, Some("/fuzz/lib".to_string()));
    assert_eq!(c.plot_path, Some("./plots".to_string()));
    assert_eq!(c.crash_path, "./out");
    assert_eq!(c.corpus_path, "./corpus");
    assert_eq!(c.persistent_sym, "main");
    assert_eq!(c.queue_path, None);
}

#[test]
fn config_from_ini_rejects_bad_map_size() {
    let mut ini = Ini::new();
    ini.read("[general]\nmap_size = many\nqemu_path = /q\n".to_string()).unwrap();
    assert_eq!(Config::from_ini(&ini).err(), Some(FuzzError::InvalidMapSize));
    let mut ini = Ini::new();
    ini.read("[general]\nmap_size = 8\n".to_string()).unwrap();
    assert_eq!(Config::from_ini(&ini).err(), Some(FuzzError::MissingQemuPath));
}

fn sym(name: SymbolName, value: u64) -> DynamicSymbol {
    DynamicSymbol { name, value }
}

#[test]
fn lookup_finds_first_symbol_of_that_name() {
    let symbols = vec![
        sym(SymbolName::Missing, 1),
        sym(SymbolName::Name("printf".to_string()), 2),
        sym(SymbolName::Name("main".to_string()), 0xb848),
        sym(SymbolName::Name("main".to_string()), 4),
    ];
    assert_eq!(lookup_symbol(&symbols, "main"), Ok(0xb848));
    assert_eq!(lookup_symbol(&symbols, "exit"), Err(ElfError::SymbolNotFound));
}

#[test]
fn lookup_stops_at_unreadable_name() {
    let symbols = vec![sym(SymbolName::Malformed, 1), sym(SymbolName::Name("main".to_string()), 2)];
    assert_eq!(lookup_symbol(&symbols, "main"), Err(ElfError::Malformed));
    assert_eq!(lookup_symbol(&Vec::new(), "main"), Err(ElfError::SymbolNotFound));
}

#[test]
fn non_elf_binary_has_no_symbols() {
    let bytes = vec![0u8; 64];
    assert_eq!(find_addr_by_sym(&bytes, "main"), Err(ElfError::NotElf));
}

#[test]
fn archive_is_not_an_elf() {
    let mut bytes = b"!<arch>\n#1/8            0           0     0     644     0         `\n".to_vec();
    bytes.extend_from_slice(b"abcdefgh");
    assert_eq!(find_addr_by_sym(&bytes, "main"), Err(ElfError::NotElf));
}

#[test]
fn short_buffer_is_not_an_elf() {
    assert_eq!(find_addr_by_sym(&[0x7f, 0x45, 0x4c], "main"), Err(ElfError::NotElf));
}

#[test]
fn truncated_elf_is_malformed() {
    let mut bytes = vec![0x7fu8, 0x45, 0x4c, 0x46];
    bytes.extend_from_slice(&[0u8; 8]);
    assert_eq!(find_addr_by_sym(&bytes, "main"), Err(ElfError::Malformed));
}

#[test]
fn config_map_size_reads_like_an_integer() {
    let mut ini = Ini::new();
    ini.read("[general]\nmap_size = +64\nqemu_path = /q\n".to_string()).unwrap();
    assert_eq!(Config::from_ini(&ini).unwrap().map_size, 64);
    let mut ini = Ini::new();
    ini.read("[general]\nqemu_path = /q\n".to_string()).unwrap();
    assert_eq!(Config::from_ini(&ini).unwrap().map_size, 1024);
    let mut ini = Ini::new();
    ini.read("[general]\nmap_size = -1\nqemu_path = /q\n".to_string()).unwrap();
    assert_eq!(Config::from_ini(&ini).err(), Some(FuzzError::InvalidMapSize));
    let mut ini = Ini::new();
    ini.read("[general]\nmap_size = 18446744073709551616\nqemu_path = /q\n".to_string()).unwrap();
    assert_eq!(Config::from_ini(&ini).err(), Some(FuzzError::InvalidMapSize));
}

#[test]
fn user_stat_readings() {
    assert_eq!(UserStat::Number(5).to_num(), Some(5));
    assert_eq!(UserStat::Ratio(3, 4).to_num(), Some(3));
    assert_eq!(UserStat::Text("x".to_string()).to_num(), None);
    let stats = vec![Some(UserStat::Number(5)), None, Some(UserStat::Ratio(9, 10)), Some(UserStat::Text("a".to_string()))];
    assert_eq!(get_user_stat(&stats), Some(9));
    assert_eq!(get_user_stat(&vec![None, Some(UserStat::Text("a".to_string()))]), None);
}

#[test]
fn plot_rows_at_most_once_a_second() {
    assert!(!plot_row_due(100, 100));
    assert!(plot_row_due(101, 100));
    assert!(!plot_row_due(99, 100));
}

#[test]
fn simple_run_outcomes() {
    assert_eq!(SimpleQEMU::exit_kind(true, false), ExitKind::Clean);
    assert_eq!(SimpleQEMU::exit_kind(false, true), ExitKind::Crash);
    assert_eq!(SimpleQEMU::exit_kind(false, false), ExitKind::Clean);
    let q = SimpleQEMU::new("/qemu".to_string(), Some("/lib".to_string()));
    assert_eq!(q.qemu_path(), "/qemu");
    assert_eq!(q.ld_library_path(), &Some("/lib".to_string()));
}
