use drone::linker::{
    defsym, defsym_args, lookup_output, output, output_from_files, response_files, run_size, section,
    LinkError, Lookup, SectionSizeTable,
};

fn strings(items: &[&str]) -> Vec<String> {
    items.iter().map(|item| item.to_string()).collect()
}

#[test]
fn size_report_gives_one_definition_per_section() {
    let report = "out.elf  :\nsection     size   addr\n.flash      1024   134217728\n.ram         256   536870912\nTotal       1280\n";
    let table = run_size(report);
    assert_eq!(table.len(), 2);
    assert_eq!(table.get("flash"), Some(1024));
    assert_eq!(table.get("ram"), Some(256));
    let mut args = defsym_args(&table);
    args.sort();
    assert_eq!(
        args,
        strings(&["--defsym=_flash_section_size=1024", "--defsym=_ram_section_size=256"])
    );
}

#[test]
fn malformed_size_lines_are_passed_over() {
    let report = ".text 12\n.bad notanumber\n.lonely\n.data 7 99\n.huge 4294967296\n.max 4294967295\n";
    let table = run_size(report);
    assert_eq!(table.len(), 3);
    assert_eq!(table.get("text"), Some(12));
    assert_eq!(table.get("data"), Some(7));
    assert_eq!(table.get("max"), Some(4294967295));
    assert_eq!(table.get("bad"), None);
    assert_eq!(table.get("lonely"), None);
    assert_eq!(table.get("huge"), None);
}

#[test]
fn a_section_reported_twice_keeps_its_last_size() {
    let table = run_size(".a 1\r\n.b 2\r\n.a 3");
    assert_eq!(table.len(), 2);
    assert_eq!(table.name(0), "a");
    assert_eq!(table.size(0), 3);
    assert_eq!(table.name(1), "b");
    assert_eq!(table.size(1), 2);
}

#[test]
fn defsym_has_the_exact_form() {
    assert_eq!(defsym("flash", 1024), "--defsym=_flash_section_size=1024");
    assert_eq!(defsym("x", 0), "--defsym=_x_section_size=0");
}

#[test]
fn output_is_taken_from_the_arguments() {
    let args = strings(&["-flavor", "gnu", "-o", "out.bin", "@args.txt"]);
    let files = strings(&["-o\nother.bin\n"]);
    assert_eq!(output(&args, &files), Ok("out.bin".to_string()));
    assert_eq!(output(&args, &Vec::new()), Ok("out.bin".to_string()));
}

#[test]
fn output_is_taken_from_a_response_file() {
    let args = strings(&["@args.txt"]);
    let files = strings(&["--gc-sections\n-o\nout.bin\nmain.o\n"]);
    assert_eq!(output(&args, &files), Ok("out.bin".to_string()));
}

#[test]
fn output_is_not_determined_without_a_flag() {
    let args = strings(&["main.o", "@args.txt"]);
    let files = strings(&["main.o\nlib.a\n"]);
    assert_eq!(output(&args, &files), Err(LinkError::OutputNotDetermined));
    assert_eq!(output(&strings(&["main.o", "-o"]), &files), Err(LinkError::OutputNotDetermined));
}

#[test]
fn the_table_keeps_one_entry_for_each_name() {
    let mut table = SectionSizeTable::new();
    assert_eq!(table.len(), 0);
    assert_eq!(table.position("text"), 0);
    table.insert("text".to_string(), 10);
    table.insert("data".to_string(), 20);
    table.insert("text".to_string(), 30);
    assert_eq!(table.len(), 2);
    assert_eq!(table.position("text"), 0);
    assert_eq!(table.position("data"), 1);
    assert_eq!(table.position("bss"), 2);
    assert_eq!(table.get("text"), Some(30));
    assert_eq!(table.get("data"), Some(20));
    assert_eq!(table.get("bss"), None);
}

#[test]
fn a_line_of_the_report_denotes_a_section_or_none() {
    let entry = section(".flash      1024   134217728").unwrap();
    assert_eq!((entry.name.as_str(), entry.size), ("flash", 1024));
    let entry = section(".\u{a0}9").unwrap();
    assert_eq!((entry.name.as_str(), entry.size), ("", 9));
    assert!(section("flash 1024").is_none());
    assert!(section(" .flash 1024").is_none());
    assert!(section(".flash").is_none());
    assert!(section(".flash 0x400").is_none());
    assert!(section(".flash -1").is_none());
    assert!(section("").is_none());
}

#[test]
fn the_first_output_flag_decides() {
    let found = |items: &[&str]| lookup_output(&strings(items));
    assert!(matches!(found(&["a", "b"]), Lookup::Absent));
    assert!(matches!(found(&[]), Lookup::Absent));
    assert!(matches!(found(&["a", "-o"]), Lookup::Dangling));
    assert!(matches!(found(&["-o", "x", "-o", "y"]), Lookup::Found(path) if path == "x"));
    assert!(matches!(found(&["-o", "-o"]), Lookup::Found(path) if path == "-o"));
    assert!(matches!(found(&["-out", "x"]), Lookup::Absent));
}

#[test]
fn response_files_are_the_arguments_behind_an_at_sign() {
    assert_eq!(
        response_files(&strings(&["main.o", "@one.rsp", "-o", "@", "@dir/two.rsp", "x@y"])),
        strings(&["one.rsp", "", "dir/two.rsp"])
    );
    assert_eq!(response_files(&Vec::new()), Vec::<String>::new());
}

#[test]
fn the_first_response_file_with_a_flag_decides() {
    let files = strings(&["a.o\nb.o\n", "-o\r\nfirst.elf\r\n", "-o\nsecond.elf\n"]);
    assert_eq!(output_from_files(&files), Some("first.elf".to_string()));
    assert_eq!(output_from_files(&strings(&["a.o\n-o", "-o\nlate.elf\n"])), None);
    assert_eq!(output_from_files(&Vec::new()), None);
}
